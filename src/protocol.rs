//! The HD44780 4-bit bus protocol: what is sent, and the line levels it produces.
use vstd::prelude::*;

verus! {

/// Characters per display row.
pub const ROW_WIDTH: usize = 16;

/// A display row, carrying the display-memory address at which it starts.
#[derive(Clone, Copy, Debug, PartialEq, Eq, Structural)]
pub enum LcdLine {
    Line1,
    Line2,
}

impl LcdLine {
    pub open spec fn address_spec(self) -> u8 {
        match self {
            LcdLine::Line1 => 0x80,
            LcdLine::Line2 => 0xC0,
        }
    }

    /// The "set display-memory address" command that moves the cursor to the start of the row.
    #[verifier::when_used_as_spec(address_spec)]
    pub fn address(self) -> (r: u8)
        ensures
            r == self.address_spec(),
    {
        match self {
            LcdLine::Line1 => 0x80,
            LcdLine::Line2 => 0xC0,
        }
    }
}

/// Whether a byte is character data (register-select high) or a command (register-select low).
#[derive(Clone, Copy, Debug, PartialEq, Eq, Structural)]
pub enum LcdMode {
    Character,
    Command,
}

impl LcdMode {
    /// The register-select level for this mode.
    pub open spec fn rs_level(self) -> bool {
        self is Character
    }
}

/// The controller commands the driver uses.
#[derive(Clone, Copy, Debug, PartialEq, Eq, Structural)]
pub enum LcdCommand {
    Initialize,
    ClearScreen,
    SetCursorMoveDirrection,
    Set4BitMode,
    SetCursorOff,
    Set2LineDisplay,
}

impl LcdCommand {
    pub open spec fn code_spec(self) -> u8 {
        match self {
            LcdCommand::Initialize => 0x33,
            LcdCommand::ClearScreen => 0x01,
            LcdCommand::SetCursorMoveDirrection => 0x06,
            LcdCommand::Set4BitMode => 0x32,
            LcdCommand::SetCursorOff => 0x0C,
            LcdCommand::Set2LineDisplay => 0x28,
        }
    }

    /// The instruction byte of the command.
    #[verifier::when_used_as_spec(code_spec)]
    pub fn code(self) -> (r: u8)
        ensures
            r == self.code_spec(),
        opens_invariants none
        no_unwind
    {
        match self {
            LcdCommand::Initialize => 0x33,
            LcdCommand::ClearScreen => 0x01,
            LcdCommand::SetCursorMoveDirrection => 0x06,
            LcdCommand::Set4BitMode => 0x32,
            LcdCommand::SetCursorOff => 0x0C,
            LcdCommand::Set2LineDisplay => 0x28,
        }
    }
}

/// One byte to transmit, with the mode it is transmitted in.
#[derive(Clone, Copy, Debug, PartialEq, Eq, Structural)]
pub struct Frame {
    pub value: u8,
    pub mode: LcdMode,
}

/// The six lines the driver owns.
#[derive(Clone, Copy, Debug, PartialEq, Eq, Structural)]
pub enum BusLine {
    RegisterSelect,
    Enable,
    Data4,
    Data5,
    Data6,
    Data7,
}

/// One step on the bus: drive a line to a level (`true` is high), or wait some milliseconds.
#[derive(Clone, Copy, Debug, PartialEq, Eq, Structural)]
pub enum BusOp {
    Drive(BusLine, bool),
    Wait(u32),
}

/// The levels of the six lines.
pub struct Lines {
    pub rs: bool,
    pub e: bool,
    pub d4: bool,
    pub d5: bool,
    pub d6: bool,
    pub d7: bool,
}

/// Some step of `h` drives `line`.
pub open spec fn driven(h: Seq<BusOp>, line: BusLine) -> bool {
    exists|i: int| 0 <= i < h.len() && #[trigger] h[i] is Drive && h[i]->Drive_0 == line
}

/// The level of `line` in `s` (`true` is high).
pub open spec fn level_of(s: Lines, line: BusLine) -> bool {
    match line {
        BusLine::RegisterSelect => s.rs,
        BusLine::Enable => s.e,
        BusLine::Data4 => s.d4,
        BusLine::Data5 => s.d5,
        BusLine::Data6 => s.d6,
        BusLine::Data7 => s.d7,
    }
}

pub open spec fn all_low() -> Lines {
    Lines { rs: false, e: false, d4: false, d5: false, d6: false, d7: false }
}

pub open spec fn data_low(s: Lines) -> bool {
    !s.d4 && !s.d5 && !s.d6 && !s.d7
}

/// The value of the four data lines read as a nibble, line 4 being bit 0.
pub open spec fn nibble_on(s: Lines) -> u8 {
    (if s.d4 { 1u8 } else { 0u8 }) | (if s.d5 { 2u8 } else { 0u8 }) | (if s.d6 { 4u8 } else {
        0u8
    }) | (if s.d7 { 8u8 } else { 0u8 })
}

pub open spec fn step(s: Lines, op: BusOp) -> Lines {
    match op {
        BusOp::Drive(line, level) => match line {
            BusLine::RegisterSelect => Lines { rs: level, ..s },
            BusLine::Enable => Lines { e: level, ..s },
            BusLine::Data4 => Lines { d4: level, ..s },
            BusLine::Data5 => Lines { d5: level, ..s },
            BusLine::Data6 => Lines { d6: level, ..s },
            BusLine::Data7 => Lines { d7: level, ..s },
        },
        BusOp::Wait(_) => s,
    }
}

/// The line levels after performing `ops`, starting from `s`.
pub open spec fn run(s: Lines, ops: Seq<BusOp>) -> Lines
    decreases ops.len(),
{
    if ops.len() == 0 {
        s
    } else {
        step(run(s, ops.drop_last()), ops.last())
    }
}

/// What the display latches at one step: on a falling edge of the enable line,
/// the register-select level and the nibble on the data lines.
pub open spec fn latch_at(s: Lines, op: BusOp) -> Seq<(bool, u8)> {
    if s.e && op == BusOp::Drive(BusLine::Enable, false) {
        seq![(s.rs, nibble_on(s))]
    } else {
        Seq::empty()
    }
}

/// Everything the display latches while `ops` are performed from `s`, in order.
pub open spec fn latched(s: Lines, ops: Seq<BusOp>) -> Seq<(bool, u8)>
    decreases ops.len(),
{
    if ops.len() == 0 {
        Seq::empty()
    } else {
        latched(s, ops.drop_last()) + latch_at(run(s, ops.drop_last()), ops.last())
    }
}

pub open spec fn clear_ops() -> Seq<BusOp> {
    seq![
        BusOp::Drive(BusLine::Data4, false),
        BusOp::Drive(BusLine::Data5, false),
        BusOp::Drive(BusLine::Data6, false),
        BusOp::Drive(BusLine::Data7, false),
    ]
}

pub open spec fn bit_set(n: u8, mask: u8) -> bool {
    n & mask == mask
}

/// Puts nibble `n` on the data lines: bit 0 on line 4 up to bit 3 on line 7.
pub open spec fn nibble_ops(n: u8) -> Seq<BusOp> {
    seq![
        BusOp::Drive(BusLine::Data4, bit_set(n, 1)),
        BusOp::Drive(BusLine::Data5, bit_set(n, 2)),
        BusOp::Drive(BusLine::Data6, bit_set(n, 4)),
        BusOp::Drive(BusLine::Data7, bit_set(n, 8)),
    ]
}

/// The enable strobe: wait, high, wait, low, wait (one millisecond each).
pub open spec fn pulse_ops() -> Seq<BusOp> {
    seq![
        BusOp::Wait(1),
        BusOp::Drive(BusLine::Enable, true),
        BusOp::Wait(1),
        BusOp::Drive(BusLine::Enable, false),
        BusOp::Wait(1),
    ]
}

pub open spec fn high_nibble(b: u8) -> u8 {
    b >> 4
}

pub open spec fn low_nibble(b: u8) -> u8 {
    b & 0x0F
}

/// The bus steps that transmit `bits` in `mode`: high nibble first, each latched by its
/// own strobe, data lines zeroed before each nibble and at the end.
pub open spec fn send_ops(bits: u8, mode: LcdMode) -> Seq<BusOp> {
    seq![BusOp::Drive(BusLine::RegisterSelect, mode.rs_level())] + clear_ops() + nibble_ops(
        high_nibble(bits),
    ) + pulse_ops() + clear_ops() + nibble_ops(low_nibble(bits)) + pulse_ops() + clear_ops()
}

/// The bus steps that transmit each frame in turn.
pub open spec fn frames_ops(frames: Seq<Frame>) -> Seq<BusOp>
    decreases frames.len(),
{
    if frames.len() == 0 {
        Seq::empty()
    } else {
        frames_ops(frames.drop_last()) + send_ops(frames.last().value, frames.last().mode)
    }
}

/// Drives every line low, then waits.
pub open spec fn release_ops() -> Seq<BusOp> {
    seq![
        BusOp::Drive(BusLine::RegisterSelect, false),
        BusOp::Drive(BusLine::Enable, false),
        BusOp::Drive(BusLine::Data4, false),
        BusOp::Drive(BusLine::Data5, false),
        BusOp::Drive(BusLine::Data6, false),
        BusOp::Drive(BusLine::Data7, false),
        BusOp::Wait(1),
    ]
}

pub open spec fn command_frame(c: LcdCommand) -> Frame {
    Frame { value: c.code_spec(), mode: LcdMode::Command }
}

/// The bring-up commands, in the order the controller requires.
pub open spec fn init_frames_spec() -> Seq<Frame> {
    seq![
        command_frame(LcdCommand::Initialize),
        command_frame(LcdCommand::Set4BitMode),
        command_frame(LcdCommand::SetCursorMoveDirrection),
        command_frame(LcdCommand::SetCursorOff),
        command_frame(LcdCommand::Set2LineDisplay),
        command_frame(LcdCommand::ClearScreen),
    ]
}

/// The bus steps of construction: bring-up, a settle, then zeroed data lines.
pub open spec fn construct_ops() -> Seq<BusOp> {
    frames_ops(init_frames_spec()) + seq![BusOp::Wait(1)] + clear_ops()
}

/// The bus steps of a reset: clear the display, then release every line.
pub open spec fn reset_ops() -> Seq<BusOp> {
    send_ops(LcdCommand::ClearScreen.code_spec(), LcdMode::Command) + release_ops()
}

pub open spec fn spaces(n: nat) -> Seq<char> {
    Seq::new(n, |i: int| ' ')
}

/// `text` followed by spaces up to `width` characters.
pub open spec fn padded(text: Seq<char>, width: nat) -> Seq<char> {
    if text.len() >= width {
        text
    } else {
        text + spaces((width - text.len()) as nat)
    }
}

/// The frames that write `text` on `line`: the row's address as a command, then each
/// character of the padded row as character data.
pub open spec fn text_frames_spec(text: Seq<char>, line: LcdLine) -> Seq<Frame> {
    seq![Frame { value: line.address_spec(), mode: LcdMode::Command }] + padded(
        text,
        ROW_WIDTH as nat,
    ).map_values(|c: char| Frame { value: c as u8, mode: LcdMode::Character })
}

/// The data-line levels that carry nibble `n`, line 4 first.
pub fn data_levels(n: u8) -> (r: [bool; 4])
    ensures
        r@ == seq![bit_set(n, 1), bit_set(n, 2), bit_set(n, 4), bit_set(n, 8)],
    opens_invariants none
    no_unwind
{
    let r = [n & 1 == 1, n & 2 == 2, n & 4 == 4, n & 8 == 8];
    assert(r@ =~= seq![bit_set(n, 1), bit_set(n, 2), bit_set(n, 4), bit_set(n, 8)]);
    r
}

/// The bring-up commands, in order.
pub fn init_frames() -> (r: Vec<Frame>)
    ensures
        r@ == init_frames_spec(),
{
    let r = vec![
        Frame { value: LcdCommand::Initialize.code(), mode: LcdMode::Command },
        Frame { value: LcdCommand::Set4BitMode.code(), mode: LcdMode::Command },
        Frame { value: LcdCommand::SetCursorMoveDirrection.code(), mode: LcdMode::Command },
        Frame { value: LcdCommand::SetCursorOff.code(), mode: LcdMode::Command },
        Frame { value: LcdCommand::Set2LineDisplay.code(), mode: LcdMode::Command },
        Frame { value: LcdCommand::ClearScreen.code(), mode: LcdMode::Command },
    ];
    assert(r@ =~= init_frames_spec());
    r
}

/// `n` copies of `s`, one after another.
pub open spec fn repeat(s: Seq<char>, n: nat) -> Seq<char>
    decreases n,
{
    if n == 0 {
        Seq::empty()
    } else {
        repeat(s, (n - 1) as nat) + s
    }
}

/// How many copies of the pad string fill `text` up to `width` characters (none if it is
/// already that wide).
pub open spec fn pad_count(text: Seq<char>, width: usize) -> nat {
    if text.len() >= width {
        0
    } else {
        (width - text.len()) as nat
    }
}

/// Appends copies of `pad_with` to `text`, one for each character `text` lacks of `width`.
pub fn pad_text(text: &str, width: usize, pad_with: &str) -> (r: String)
    ensures
        r@ == text@ + repeat(pad_with@, pad_count(text@, width)),
{
    let len = text.unicode_len();
    let padding: usize = width.saturating_sub(len);
    let mut r = String::from_str(text);
    let mut i: usize = 0;
    while i < padding
        invariant
            i <= padding,
            padding as nat == pad_count(text@, width),
            r@ == text@ + repeat(pad_with@, i as nat),
        decreases padding - i,
    {
        r.append(pad_with);
        i = i + 1;
        assert(r@ =~= text@ + repeat(pad_with@, i as nat));
    }
    r
}

proof fn lemma_repeat_space(n: nat)
    ensures
        repeat(" "@, n) == spaces(n),
    decreases n,
{
    reveal_strlit(" ");
    if n > 0 {
        lemma_repeat_space((n - 1) as nat);
        assert(repeat(" "@, n) =~= spaces(n));
    } else {
        assert(repeat(" "@, n) =~= spaces(n));
    }
}

/// The frames that write `text` on `line`, or `None` when the text is wider than a row.
pub fn text_frames(text: &str, line: LcdLine) -> (r: Option<Vec<Frame>>)
    ensures
        r is None <==> text@.len() > ROW_WIDTH,
        r matches Some(v) ==> v@ == text_frames_spec(text@, line),
{
    if text.unicode_len() > ROW_WIDTH {
        return None;
    }
    let row = pad_text(text, ROW_WIDTH, " ");
    proof {
        lemma_repeat_space(pad_count(text@, ROW_WIDTH));
        assert(row@ =~= padded(text@, ROW_WIDTH as nat));
    }
    let ghost spec_frames = text_frames_spec(text@, line);
    let mut v: Vec<Frame> = Vec::new();
    v.push(Frame { value: line.address(), mode: LcdMode::Command });
    let mut i: usize = 0;
    while i < ROW_WIDTH
        invariant
            i <= ROW_WIDTH,
            row@ == padded(text@, ROW_WIDTH as nat),
            row@.len() == ROW_WIDTH,
            spec_frames == text_frames_spec(text@, line),
            spec_frames.len() == ROW_WIDTH + 1,
            v@ == spec_frames.take(i + 1),
        decreases ROW_WIDTH - i,
    {
        let c = row.as_str().get_char(i);
        v.push(Frame { value: c as u8, mode: LcdMode::Character });
        i = i + 1;
        assert(v@ =~= spec_frames.take(i + 1));
    }
    assert(v@ =~= spec_frames);
    Some(v)
}

} // verus!
