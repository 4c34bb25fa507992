//! The rppal items the driver relies on: the GPIO peripheral, output pins, the board's
//! identification and a millisecond delay; and `Bus`, the six owned lines, whose record of bus
//! steps only the calls that drive a pin or wait extend.
use vstd::prelude::*;

use rppal::gpio::{Gpio, OutputPin, Pin};
use rppal::hal::Delay;
use rppal::system::DeviceInfo;

use crate::protocol::{driven, run, BusLine, BusOp, Lines};

verus! {

#[verifier::external_type_specification]
#[verifier::external_body]
pub struct ExGpio(Gpio);

#[verifier::external_type_specification]
#[verifier::external_body]
pub struct ExPin(Pin);

#[verifier::external_type_specification]
#[verifier::external_body]
pub struct ExOutputPin(OutputPin);

#[verifier::external_type_specification]
#[verifier::external_body]
pub struct ExGpioError(rppal::gpio::Error);

#[verifier::external_type_specification]
#[verifier::external_body]
pub struct ExDeviceInfo(DeviceInfo);

#[verifier::external_type_specification]
#[verifier::external_body]
pub struct ExSystemError(rppal::system::Error);

#[verifier::external_type_specification]
#[verifier::external_body]
pub struct ExDelay(Delay);

/// Relies on rppal's `Gpio::new`: access to the GPIO peripheral, or the reason it is unavailable.
pub assume_specification[ Gpio::new ]() -> rppal::gpio::Result<Gpio>;

/// Relies on rppal's `Gpio::get`: claims a pin by its BCM number, failing when the number is
/// out of range or the pin is already claimed.
pub assume_specification[ Gpio::get ](gpio: &Gpio, pin: u8) -> rppal::gpio::Result<Pin>;

/// Relies on rppal's `Pin::into_output`: switches a claimed pin to output mode.
pub assume_specification[ Pin::into_output ](pin: Pin) -> OutputPin;

/// Relies on rppal's `DeviceInfo::new`: identifies the board, or the reason it cannot.
pub assume_specification[ DeviceInfo::new ]() -> rppal::system::Result<DeviceInfo>;

/// Relies on rppal's `Delay::new`: a blocking delay source.
pub assume_specification[ Delay::new ]() -> Delay;

/// The six owned output lines and the delay that paces them, with the record of every bus step
/// performed on them since they were claimed.
pub(crate) struct Bus {
    rs: OutputPin,
    e: OutputPin,
    d4: OutputPin,
    d5: OutputPin,
    d6: OutputPin,
    d7: OutputPin,
    delay: Delay,
    start: Ghost<Lines>,
    log: Ghost<Seq<BusOp>>,
}

impl Bus {
    /// Every bus step performed, in order.
    pub(crate) closed spec fn history(&self) -> Seq<BusOp> {
        self.log@
    }

    /// The levels the lines had when they were claimed.
    pub(crate) closed spec fn initial(&self) -> Lines {
        self.start@
    }

    /// The levels the lines are driven to now.
    pub(crate) open spec fn levels(&self) -> Lines {
        run(self.initial(), self.history())
    }

    /// Takes ownership of the six claimed lines; nothing is known of their levels.
    pub(crate) fn new(
        rs: OutputPin,
        e: OutputPin,
        d4: OutputPin,
        d5: OutputPin,
        d6: OutputPin,
        d7: OutputPin,
        delay: Delay,
    ) -> (r: Bus)
        ensures
            r.history() == Seq::<BusOp>::empty(),
    {
        Bus {
            rs,
            e,
            d4,
            d5,
            d6,
            d7,
            delay,
            start: Ghost(vstd::pervasive::arbitrary()),
            log: Ghost(Seq::empty()),
        }
    }

    /// Relies on rppal's `OutputPin::set_high`: drives the RegisterSelect line high; a register write
    /// that does not panic.
    #[verifier::external_body]
    pub(crate) fn rs_high(&mut self)
        ensures
            final(self).history() == old(self).history().push(BusOp::Drive(BusLine::RegisterSelect, true)),
            final(self).initial() == old(self).initial(),
        opens_invariants none
        no_unwind
    {
        self.rs.set_high()
    }

    /// Relies on rppal's `OutputPin::set_low`: drives the RegisterSelect line low; a register write
    /// that does not panic.
    #[verifier::external_body]
    pub(crate) fn rs_low(&mut self)
        ensures
            final(self).history() == old(self).history().push(BusOp::Drive(BusLine::RegisterSelect, false)),
            final(self).initial() == old(self).initial(),
        opens_invariants none
        no_unwind
    {
        self.rs.set_low()
    }

    /// Relies on rppal's `OutputPin::is_set_low`: reads back whether the RegisterSelect line is set low,
    /// which once the line has been driven is the level last driven.
    #[verifier::external_body]
    pub(crate) fn rs_is_low(&self) -> (r: bool)
        ensures
            driven(self.history(), BusLine::RegisterSelect) ==> r == !self.levels().rs,
    {
        self.rs.is_set_low()
    }

    /// Relies on rppal's `OutputPin::set_high`: drives the Enable line high; a register write
    /// that does not panic.
    #[verifier::external_body]
    pub(crate) fn e_high(&mut self)
        ensures
            final(self).history() == old(self).history().push(BusOp::Drive(BusLine::Enable, true)),
            final(self).initial() == old(self).initial(),
        opens_invariants none
        no_unwind
    {
        self.e.set_high()
    }

    /// Relies on rppal's `OutputPin::set_low`: drives the Enable line low; a register write
    /// that does not panic.
    #[verifier::external_body]
    pub(crate) fn e_low(&mut self)
        ensures
            final(self).history() == old(self).history().push(BusOp::Drive(BusLine::Enable, false)),
            final(self).initial() == old(self).initial(),
        opens_invariants none
        no_unwind
    {
        self.e.set_low()
    }

    /// Relies on rppal's `OutputPin::is_set_low`: reads back whether the Enable line is set low,
    /// which once the line has been driven is the level last driven.
    #[verifier::external_body]
    pub(crate) fn e_is_low(&self) -> (r: bool)
        ensures
            driven(self.history(), BusLine::Enable) ==> r == !self.levels().e,
    {
        self.e.is_set_low()
    }

    /// Relies on rppal's `OutputPin::set_high`: drives the Data4 line high; a register write
    /// that does not panic.
    #[verifier::external_body]
    pub(crate) fn d4_high(&mut self)
        ensures
            final(self).history() == old(self).history().push(BusOp::Drive(BusLine::Data4, true)),
            final(self).initial() == old(self).initial(),
        opens_invariants none
        no_unwind
    {
        self.d4.set_high()
    }

    /// Relies on rppal's `OutputPin::set_low`: drives the Data4 line low; a register write
    /// that does not panic.
    #[verifier::external_body]
    pub(crate) fn d4_low(&mut self)
        ensures
            final(self).history() == old(self).history().push(BusOp::Drive(BusLine::Data4, false)),
            final(self).initial() == old(self).initial(),
        opens_invariants none
        no_unwind
    {
        self.d4.set_low()
    }

    /// Relies on rppal's `OutputPin::is_set_low`: reads back whether the Data4 line is set low,
    /// which once the line has been driven is the level last driven.
    #[verifier::external_body]
    pub(crate) fn d4_is_low(&self) -> (r: bool)
        ensures
            driven(self.history(), BusLine::Data4) ==> r == !self.levels().d4,
    {
        self.d4.is_set_low()
    }

    /// Relies on rppal's `OutputPin::set_high`: drives the Data5 line high; a register write
    /// that does not panic.
    #[verifier::external_body]
    pub(crate) fn d5_high(&mut self)
        ensures
            final(self).history() == old(self).history().push(BusOp::Drive(BusLine::Data5, true)),
            final(self).initial() == old(self).initial(),
        opens_invariants none
        no_unwind
    {
        self.d5.set_high()
    }

    /// Relies on rppal's `OutputPin::set_low`: drives the Data5 line low; a register write
    /// that does not panic.
    #[verifier::external_body]
    pub(crate) fn d5_low(&mut self)
        ensures
            final(self).history() == old(self).history().push(BusOp::Drive(BusLine::Data5, false)),
            final(self).initial() == old(self).initial(),
        opens_invariants none
        no_unwind
    {
        self.d5.set_low()
    }

    /// Relies on rppal's `OutputPin::is_set_low`: reads back whether the Data5 line is set low,
    /// which once the line has been driven is the level last driven.
    #[verifier::external_body]
    pub(crate) fn d5_is_low(&self) -> (r: bool)
        ensures
            driven(self.history(), BusLine::Data5) ==> r == !self.levels().d5,
    {
        self.d5.is_set_low()
    }

    /// Relies on rppal's `OutputPin::set_high`: drives the Data6 line high; a register write
    /// that does not panic.
    #[verifier::external_body]
    pub(crate) fn d6_high(&mut self)
        ensures
            final(self).history() == old(self).history().push(BusOp::Drive(BusLine::Data6, true)),
            final(self).initial() == old(self).initial(),
        opens_invariants none
        no_unwind
    {
        self.d6.set_high()
    }

    /// Relies on rppal's `OutputPin::set_low`: drives the Data6 line low; a register write
    /// that does not panic.
    #[verifier::external_body]
    pub(crate) fn d6_low(&mut self)
        ensures
            final(self).history() == old(self).history().push(BusOp::Drive(BusLine::Data6, false)),
            final(self).initial() == old(self).initial(),
        opens_invariants none
        no_unwind
    {
        self.d6.set_low()
    }

    /// Relies on rppal's `OutputPin::is_set_low`: reads back whether the Data6 line is set low,
    /// which once the line has been driven is the level last driven.
    #[verifier::external_body]
    pub(crate) fn d6_is_low(&self) -> (r: bool)
        ensures
            driven(self.history(), BusLine::Data6) ==> r == !self.levels().d6,
    {
        self.d6.is_set_low()
    }

    /// Relies on rppal's `OutputPin::set_high`: drives the Data7 line high; a register write
    /// that does not panic.
    #[verifier::external_body]
    pub(crate) fn d7_high(&mut self)
        ensures
            final(self).history() == old(self).history().push(BusOp::Drive(BusLine::Data7, true)),
            final(self).initial() == old(self).initial(),
        opens_invariants none
        no_unwind
    {
        self.d7.set_high()
    }

    /// Relies on rppal's `OutputPin::set_low`: drives the Data7 line low; a register write
    /// that does not panic.
    #[verifier::external_body]
    pub(crate) fn d7_low(&mut self)
        ensures
            final(self).history() == old(self).history().push(BusOp::Drive(BusLine::Data7, false)),
            final(self).initial() == old(self).initial(),
        opens_invariants none
        no_unwind
    {
        self.d7.set_low()
    }

    /// Relies on rppal's `OutputPin::is_set_low`: reads back whether the Data7 line is set low,
    /// which once the line has been driven is the level last driven.
    #[verifier::external_body]
    pub(crate) fn d7_is_low(&self) -> (r: bool)
        ensures
            driven(self.history(), BusLine::Data7) ==> r == !self.levels().d7,
    {
        self.d7.is_set_low()
    }

    /// Relies on rppal's `DelayNs::delay_ms` for `Delay`: sleeps for `ms` milliseconds; it does
    /// not panic.
    #[verifier::external_body]
    pub(crate) fn wait_ms(&mut self, ms: u32)
        ensures
            final(self).history() == old(self).history().push(BusOp::Wait(ms)),
            final(self).initial() == old(self).initial(),
        opens_invariants none
        no_unwind
    {
        embedded_hal::delay::DelayNs::delay_ms(&mut self.delay, ms)
    }
}

} // verus!
