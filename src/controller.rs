//! The display controller: six owned output lines driven through the 4-bit protocol.
use vstd::prelude::*;

use rppal::gpio::Gpio;
use rppal::hal::Delay;
use rppal::system::DeviceInfo;

use crate::board::Bus;
use crate::laws::{construct_ends_all_low, lemma_clear, lemma_release, lemma_run_concat, send_latches_high_then_low};
use crate::protocol::{
    all_low, clear_ops, construct_ops, data_levels, data_low, frames_ops, init_frames,
    init_frames_spec, nibble_ops, pulse_ops, release_ops, reset_ops, run, send_ops,
    text_frames, text_frames_spec, driven, level_of, BusLine, BusOp, Frame, LcdCommand, LcdLine, LcdMode, Lines,
    ROW_WIDTH,
};

verus! {

/// Default wiring: register-select line.
pub const LCD_RS: u8 = 7;

/// Default wiring: enable line.
pub const LCD_E: u8 = 8;

/// Default wiring: data line 4.
pub const LCD_D4: u8 = 25;

/// Default wiring: data line 5.
pub const LCD_D5: u8 = 24;

/// Default wiring: data line 6.
pub const LCD_D6: u8 = 23;

/// Default wiring: data line 7.
pub const LCD_D7: u8 = 18;

/// The BCM numbers of the six lines.
#[derive(Clone, Copy, Debug, PartialEq, Eq, Structural)]
pub struct PinConfig {
    pub rs: u8,
    pub e: u8,
    pub d4: u8,
    pub d5: u8,
    pub d6: u8,
    pub d7: u8,
}

impl PinConfig {
    pub open spec fn numbers(self) -> Seq<u8> {
        seq![self.rs, self.e, self.d4, self.d5, self.d6, self.d7]
    }

    /// No two lines share a pin.
    pub open spec fn distinct(self) -> bool {
        forall|i: int, j: int| 0 <= i < j < 6 ==> self.numbers()[i] != self.numbers()[j]
    }

    /// The wiring the default constructor uses.
    pub fn default_wiring() -> (r: PinConfig)
        ensures
            r == (PinConfig { rs: LCD_RS, e: LCD_E, d4: LCD_D4, d5: LCD_D5, d6: LCD_D6, d7: LCD_D7 }),
    {
        PinConfig { rs: LCD_RS, e: LCD_E, d4: LCD_D4, d5: LCD_D5, d6: LCD_D6, d7: LCD_D7 }
    }

    /// A pin number that two lines share, if there is one.
    pub fn shared_pin(&self) -> (r: Option<u8>)
        ensures
            r is None <==> self.distinct(),
            r matches Some(p) ==> exists|i: int, j: int|
                0 <= i < j < 6 && self.numbers()[i] == p && self.numbers()[j] == p,
    {
        let a = [self.rs, self.e, self.d4, self.d5, self.d6, self.d7];
        assert(a@ =~= self.numbers());
        let mut i: usize = 0;
        while i < 6
            invariant
                i <= 6,
                a@ == self.numbers(),
                forall|x: int, y: int| 0 <= x < y < 6 && x < i ==> a@[x] != a@[y],
            decreases 6 - i,
        {
            let mut j: usize = i + 1;
            while j < 6
                invariant
                    i < 6,
                    i < j <= 6,
                    a@ == self.numbers(),
                    forall|x: int, y: int| 0 <= x < y < 6 && x < i ==> a@[x] != a@[y],
                    forall|y: int| i < y < j ==> a@[i as int] != a@[y],
                decreases 6 - j,
            {
                if a[i] == a[j] {
                    return Some(a[i]);
                }
                j = j + 1;
            }
            i = i + 1;
        }
        None
    }
}

/// Why a controller could not be constructed.
pub enum LcdError {
    /// The GPIO peripheral or one of the pins could not be had.
    GpioError(rppal::gpio::Error),
    /// The board could not be identified.
    DeviceError(rppal::system::Error),
    /// Two lines were assigned the same pin.
    SharedPin(u8),
}

/// Drives an HD44780 display over six owned output lines.
pub struct LCDController {
    device_info: DeviceInfo,
    bus: Bus,
    config: PinConfig,
}

/// "high" or "low": the word for a line that reads back low (`is_low`) or high.
pub fn high_or_low(is_low: bool) -> (r: String)
    ensures
        r@ == level_word(!is_low),
{
    proof {
        reveal_strlit("low");
        reveal_strlit("high");
    }
    if is_low {
        String::from_str("low")
    } else {
        String::from_str("high")
    }
}

/// The word for a level: "high" for `true`, "low" for `false`.
pub open spec fn level_word(high: bool) -> Seq<char> {
    if high {
        seq!['h', 'i', 'g', 'h']
    } else {
        seq!['l', 'o', 'w']
    }
}

impl LCDController {
    /// Every bus step performed since the pins were claimed, in order.
    pub closed spec fn bus_history(&self) -> Seq<BusOp> {
        self.bus.history()
    }

    /// The levels the lines are driven to now.
    pub closed spec fn lines(&self) -> Lines {
        self.bus.levels()
    }

    /// The levels the lines had when they were claimed.
    pub closed spec fn initial_lines(&self) -> Lines {
        self.bus.initial()
    }

    /// The current levels are those the recorded steps produce from the initial ones.
    pub proof fn lemma_lines(&self)
        ensures
            self.lines() == run(self.initial_lines(), self.bus_history()),
    {
    }

    /// The pin numbers the controller owns.
    pub closed spec fn config_spec(&self) -> PinConfig {
        self.config
    }

    /// Claims the six pins as outputs, brings the display up and zeroes the data lines.
    pub fn new(lcd_rs: u8, lcd_e: u8, lcd_d4: u8, lcd_d5: u8, lcd_d6: u8, lcd_d7: u8) -> (r:
        Result<LCDController, LcdError>)
        ensures
            !(PinConfig { rs: lcd_rs, e: lcd_e, d4: lcd_d4, d5: lcd_d5, d6: lcd_d6, d7: lcd_d7 }).distinct()
                <==> (r is Err && r->Err_0 is SharedPin),
            r matches Err(LcdError::SharedPin(p)) ==> (PinConfig {
                rs: lcd_rs,
                e: lcd_e,
                d4: lcd_d4,
                d5: lcd_d5,
                d6: lcd_d6,
                d7: lcd_d7,
            }).numbers().contains(p),
            r matches Ok(c) ==> c.config_spec() == (PinConfig {
                rs: lcd_rs,
                e: lcd_e,
                d4: lcd_d4,
                d5: lcd_d5,
                d6: lcd_d6,
                d7: lcd_d7,
            }) && c.bus_history() == construct_ops() && c.lines() == all_low(),
            r matches Ok(c) ==> forall|line: BusLine| #[trigger] driven(c.bus_history(), line),
    {
        let cfg = PinConfig { rs: lcd_rs, e: lcd_e, d4: lcd_d4, d5: lcd_d5, d6: lcd_d6, d7: lcd_d7 };
        match cfg.shared_pin() {
            Some(p) => {
                return Err(LcdError::SharedPin(p));
            },
            None => {},
        }
        let gpio = match Gpio::new() {
            Ok(g) => g,
            Err(e) => {
                return Err(LcdError::GpioError(e));
            },
        };
        let device_info = match DeviceInfo::new() {
            Ok(d) => d,
            Err(e) => {
                return Err(LcdError::DeviceError(e));
            },
        };
        let rs = match gpio.get(lcd_rs) {
            Ok(p) => p.into_output(),
            Err(e) => {
                return Err(LcdError::GpioError(e));
            },
        };
        let e = match gpio.get(lcd_e) {
            Ok(p) => p.into_output(),
            Err(e) => {
                return Err(LcdError::GpioError(e));
            },
        };
        let d4 = match gpio.get(lcd_d4) {
            Ok(p) => p.into_output(),
            Err(e) => {
                return Err(LcdError::GpioError(e));
            },
        };
        let d5 = match gpio.get(lcd_d5) {
            Ok(p) => p.into_output(),
            Err(e) => {
                return Err(LcdError::GpioError(e));
            },
        };
        let d6 = match gpio.get(lcd_d6) {
            Ok(p) => p.into_output(),
            Err(e) => {
                return Err(LcdError::GpioError(e));
            },
        };
        let d7 = match gpio.get(lcd_d7) {
            Ok(p) => p.into_output(),
            Err(e) => {
                return Err(LcdError::GpioError(e));
            },
        };
        let mut controller = LCDController {
            device_info,
            bus: Bus::new(rs, e, d4, d5, d6, d7, Delay::new()),
            config: cfg,
        };
        controller.init();
        controller.reset_data_pins();
        proof {
            construct_ends_all_low(controller.bus.initial());
            assert(frames_ops(init_frames_spec()) + seq![BusOp::Wait(1)] + clear_ops()
                =~= Seq::<BusOp>::empty() + construct_ops());
        }
        Ok(controller)
    }

    /// Claims the pins of the default wiring (see the `LCD_*` constants) and brings the display up.
    /// The wiring must match, or the device may be damaged.
    pub fn default() -> (r: Result<LCDController, LcdError>)
        ensures
            r matches Ok(c) ==> c.config_spec() == (PinConfig {
                rs: LCD_RS,
                e: LCD_E,
                d4: LCD_D4,
                d5: LCD_D5,
                d6: LCD_D6,
                d7: LCD_D7,
            }) && c.bus_history() == construct_ops() && c.lines() == all_low(),
            r matches Ok(c) ==> forall|line: BusLine| #[trigger] driven(c.bus_history(), line),
            !(r is Err && r->Err_0 is SharedPin),
    {
        let cfg = PinConfig::default_wiring();
        assert(cfg.distinct());
        LCDController::new(cfg.rs, cfg.e, cfg.d4, cfg.d5, cfg.d6, cfg.d7)
    }

    /// The pin numbers the controller was built with.
    pub fn pins(&self) -> (r: PinConfig)
        ensures
            r == self.config_spec(),
    {
        self.config
    }

    /// The identification of the board the controller runs on.
    pub fn device_info(&self) -> &DeviceInfo {
        &self.device_info
    }

    /// "high" or "low": the level `line` is set to, as read back from the pin.
    pub fn line_status(&self, line: BusLine) -> (r: String)
        ensures
            driven(self.bus_history(), line) ==> r@ == level_word(level_of(self.lines(), line)),
    {
        let is_low = match line {
            BusLine::RegisterSelect => self.bus.rs_is_low(),
            BusLine::Enable => self.bus.e_is_low(),
            BusLine::Data4 => self.bus.d4_is_low(),
            BusLine::Data5 => self.bus.d5_is_low(),
            BusLine::Data6 => self.bus.d6_is_low(),
            BusLine::Data7 => self.bus.d7_is_low(),
        };
        high_or_low(is_low)
    }

    /// Performs one bus step.
    fn apply(&mut self, op: BusOp)
        ensures
            final(self).bus.history() == old(self).bus.history().push(op),
            final(self).bus.initial() == old(self).bus.initial(),
            final(self).config == old(self).config,
        opens_invariants none
        no_unwind
    {
        match op {
            BusOp::Drive(line, level) => match line {
                BusLine::RegisterSelect => if level {
                    self.bus.rs_high()
                } else {
                    self.bus.rs_low()
                },
                BusLine::Enable => if level {
                    self.bus.e_high()
                } else {
                    self.bus.e_low()
                },
                BusLine::Data4 => if level {
                    self.bus.d4_high()
                } else {
                    self.bus.d4_low()
                },
                BusLine::Data5 => if level {
                    self.bus.d5_high()
                } else {
                    self.bus.d5_low()
                },
                BusLine::Data6 => if level {
                    self.bus.d6_high()
                } else {
                    self.bus.d6_low()
                },
                BusLine::Data7 => if level {
                    self.bus.d7_high()
                } else {
                    self.bus.d7_low()
                },
            },
            BusOp::Wait(ms) => self.bus.wait_ms(ms),
        }
    }

    /// Drives the four data lines low.
    pub fn reset_data_pins(&mut self)
        ensures
            final(self).bus_history() == old(self).bus_history() + clear_ops(),
            final(self).lines() == run(old(self).lines(), clear_ops()),
            data_low(final(self).lines()),
            final(self).config_spec() == old(self).config_spec(),
            final(self).initial_lines() == old(self).initial_lines(),
        opens_invariants none
        no_unwind
    {
        let ghost h0 = self.bus.history();
        self.apply(BusOp::Drive(BusLine::Data4, false));
        self.apply(BusOp::Drive(BusLine::Data5, false));
        self.apply(BusOp::Drive(BusLine::Data6, false));
        self.apply(BusOp::Drive(BusLine::Data7, false));
        assert(self.bus.history() =~= h0 + clear_ops());
        proof {
            lemma_run_concat(self.bus.initial(), h0, clear_ops());
            lemma_clear(run(self.bus.initial(), h0));
        }
    }

    /// Puts nibble `n` on the data lines.
    fn write_nibble(&mut self, n: u8)
        ensures
            final(self).bus.history() == old(self).bus.history() + nibble_ops(n),
            final(self).bus.initial() == old(self).bus.initial(),
            final(self).config == old(self).config,
        opens_invariants none
        no_unwind
    {
        let ghost h0 = self.bus.history();
        let levels = data_levels(n);
        self.apply(BusOp::Drive(BusLine::Data4, levels[0]));
        self.apply(BusOp::Drive(BusLine::Data5, levels[1]));
        self.apply(BusOp::Drive(BusLine::Data6, levels[2]));
        self.apply(BusOp::Drive(BusLine::Data7, levels[3]));
        assert(self.bus.history() =~= h0 + nibble_ops(n));
    }

    /// Strobes the enable line so that the display latches the data lines.
    fn enable(&mut self)
        ensures
            final(self).bus.history() == old(self).bus.history() + pulse_ops(),
            final(self).bus.initial() == old(self).bus.initial(),
            final(self).config == old(self).config,
        opens_invariants none
        no_unwind
    {
        let ghost h0 = self.bus.history();
        self.apply(BusOp::Wait(1));
        self.apply(BusOp::Drive(BusLine::Enable, true));
        self.apply(BusOp::Wait(1));
        self.apply(BusOp::Drive(BusLine::Enable, false));
        self.apply(BusOp::Wait(1));
        assert(self.bus.history() =~= h0 + pulse_ops());
    }

    /// Transmits `bits` as a command or as character data: high nibble, then low nibble.
    pub fn send(&mut self, bits: u8, mode: LcdMode)
        ensures
            final(self).bus_history() == old(self).bus_history() + send_ops(bits, mode),
            final(self).lines() == run(old(self).lines(), send_ops(bits, mode)),
            data_low(final(self).lines()),
            !final(self).lines().e,
            final(self).config_spec() == old(self).config_spec(),
            final(self).initial_lines() == old(self).initial_lines(),
        opens_invariants none
        no_unwind
    {
        let ghost h0 = self.bus.history();
        let rs_level = match mode {
            LcdMode::Character => true,
            LcdMode::Command => false,
        };
        self.apply(BusOp::Drive(BusLine::RegisterSelect, rs_level));
        self.reset_data_pins();
        self.write_nibble(bits >> 4);
        self.enable();
        self.reset_data_pins();
        self.write_nibble(bits & 0x0F);
        self.enable();
        self.reset_data_pins();
        proof {
            assert(self.bus.history() =~= h0 + send_ops(bits, mode));
            lemma_run_concat(self.bus.initial(), h0, send_ops(bits, mode));
            send_latches_high_then_low(run(self.bus.initial(), h0), bits, mode);
        }
    }

    /// Transmits each frame in turn.
    fn transmit(&mut self, frames: &Vec<Frame>)
        ensures
            final(self).bus.history() == old(self).bus.history() + frames_ops(frames@),
            final(self).bus.initial() == old(self).bus.initial(),
            final(self).config == old(self).config,
    {
        let ghost h0 = self.bus.history();
        let mut i: usize = 0;
        while i < frames.len()
            invariant
                i <= frames@.len(),
                self.bus.history() == h0 + frames_ops(frames@.take(i as int)),
                self.bus.initial() == old(self).bus.initial(),
                self.config == old(self).config,
            decreases frames.len() - i,
        {
            let f = frames[i];
            self.send(f.value, f.mode);
            proof {
                let t = frames@.take(i + 1);
                assert(t.drop_last() =~= frames@.take(i as int));
                assert(t.last() == f);
            }
            i = i + 1;
            assert(self.bus.history() =~= h0 + frames_ops(frames@.take(i as int)));
        }
        assert(frames@.take(i as int) =~= frames@);
    }

    /// Sends the bring-up commands, then lets them settle.
    fn init(&mut self)
        ensures
            final(self).bus.history() == old(self).bus.history() + frames_ops(init_frames_spec()) + seq![
                BusOp::Wait(1),
            ],
            final(self).bus.initial() == old(self).bus.initial(),
            final(self).config == old(self).config,
    {
        let frames = init_frames();
        self.transmit(&frames);
        self.apply(BusOp::Wait(1));
        assert(self.bus.history() =~= old(self).bus.history() + frames_ops(init_frames_spec()) + seq![
            BusOp::Wait(1),
        ]);
    }

    /// Clears the display, then drives every line low.
    pub fn reset(&mut self)
        ensures
            final(self).bus_history() == old(self).bus_history() + reset_ops(),
            final(self).lines() == all_low(),
            final(self).config_spec() == old(self).config_spec(),
        opens_invariants none
        no_unwind
    {
        let ghost h0 = self.bus.history();
        self.send(LcdCommand::ClearScreen.code(), LcdMode::Command);
        let ghost h1 = self.bus.history();
        self.apply(BusOp::Drive(BusLine::RegisterSelect, false));
        self.apply(BusOp::Drive(BusLine::Enable, false));
        self.apply(BusOp::Drive(BusLine::Data4, false));
        self.apply(BusOp::Drive(BusLine::Data5, false));
        self.apply(BusOp::Drive(BusLine::Data6, false));
        self.apply(BusOp::Drive(BusLine::Data7, false));
        self.apply(BusOp::Wait(1));
        proof {
            assert(self.bus.history() =~= h1 + release_ops());
            assert(self.bus.history() =~= h0 + reset_ops());
            lemma_run_concat(self.bus.initial(), h1, release_ops());
            lemma_release(run(self.bus.initial(), h1));
        }
    }

    /// Writes `text`, padded with spaces to the row width, on `line`.
    pub fn display_text(&mut self, text: &str, line: LcdLine)
        requires
            text@.len() <= ROW_WIDTH,
        ensures
            final(self).bus_history() == old(self).bus_history() + frames_ops(
                text_frames_spec(text@, line),
            ),
            final(self).lines() == run(old(self).lines(), frames_ops(text_frames_spec(text@, line))),
            data_low(final(self).lines()),
            final(self).config_spec() == old(self).config_spec(),
    {
        let frames = text_frames(text, line);
        match frames {
            Some(f) => {
                let ghost h0 = self.bus.history();
                self.transmit(&f);
                proof {
                    lemma_run_concat(self.bus.initial(), h0, frames_ops(f@));
                    lemma_frames_end_data_low(run(self.bus.initial(), h0), f@);
                }
            },
            None => {},
        }
    }

    /// Clears the display.
    pub fn clear_screen(&mut self)
        ensures
            final(self).bus_history() == old(self).bus_history() + send_ops(0x01, LcdMode::Command),
            final(self).lines() == run(old(self).lines(), send_ops(0x01, LcdMode::Command)),
            data_low(final(self).lines()),
            final(self).config_spec() == old(self).config_spec(),
    {
        self.send(LcdCommand::ClearScreen.code(), LcdMode::Command)
    }
}

proof fn lemma_frames_end_data_low(s: Lines, frames: Seq<Frame>)
    requires
        frames.len() > 0,
    ensures
        data_low(run(s, frames_ops(frames))),
{
    let f = frames.last();
    lemma_run_concat(s, frames_ops(frames.drop_last()), send_ops(f.value, f.mode));
    send_latches_high_then_low(run(s, frames_ops(frames.drop_last())), f.value, f.mode);
}

impl Drop for LCDController {
    /// Leaves the display cleared and every line low when the controller goes away.
    fn drop(&mut self)
        opens_invariants none
        no_unwind
    {
        self.reset();
    }
}

} // verus!
