//! What holds of the bus model: how steps compose, what a transmission latches, and the
//! laws of the driver's operations.
use vstd::prelude::*;

use crate::protocol::{
    all_low, bit_set, driven, clear_ops, command_frame, construct_ops, frames_ops, init_frames_spec, padded,
    release_ops, reset_ops, spaces, text_frames_spec, Frame, LcdCommand, LcdLine, ROW_WIDTH, data_low, high_nibble, latched, low_nibble, nibble_on, nibble_ops, pulse_ops,
    latch_at, run, send_ops, step, BusLine, BusOp, LcdMode, Lines,
};

verus! {

pub proof fn lemma_run_concat(s: Lines, a: Seq<BusOp>, b: Seq<BusOp>)
    ensures
        run(s, a + b) == run(run(s, a), b),
        latched(s, a + b) == latched(s, a) + latched(run(s, a), b),
    decreases b.len(),
{
    if b.len() == 0 {
        assert(a + b =~= a);
        assert(latched(s, a) + latched(run(s, a), b) =~= latched(s, a));
    } else {
        lemma_run_concat(s, a, b.drop_last());
        assert((a + b).drop_last() =~= a + b.drop_last());
        assert((a + b).last() == b.last());
        assert(latched(s, a + b) =~= latched(s, a) + latched(run(s, a), b));
    }
}

proof fn lemma_single(s: Lines, op: BusOp)
    ensures
        run(s, seq![op]) == step(s, op),
        latched(s, seq![op]) == latch_at(s, op),
{
    reveal_with_fuel(run, 2);
    reveal_with_fuel(latched, 2);
    assert(seq![op].drop_last() =~= Seq::<BusOp>::empty());
    assert(latched(s, seq![op]) =~= latch_at(s, op));
}

pub proof fn lemma_clear(s: Lines)
    ensures
        run(s, clear_ops()) == (Lines { d4: false, d5: false, d6: false, d7: false, ..s }),
        latched(s, clear_ops()) == Seq::<(bool, u8)>::empty(),
{
    reveal_with_fuel(run, 5);
    reveal_with_fuel(latched, 5);
    let c = clear_ops();
    assert(c.drop_last().drop_last().drop_last().drop_last() =~= Seq::<BusOp>::empty());
    assert(latched(s, c) =~= Seq::<(bool, u8)>::empty());
}

/// Releasing the bus leaves every line low, whatever the levels before.
pub proof fn lemma_release(s: Lines)
    ensures
        run(s, release_ops()) == all_low(),
{
    reveal_with_fuel(run, 8);
    let r = release_ops();
    assert(r.drop_last().drop_last().drop_last().drop_last().drop_last().drop_last().drop_last()
        =~= Seq::<BusOp>::empty());
}

proof fn lemma_nibble(s: Lines, n: u8)
    ensures
        run(s, nibble_ops(n)) == (Lines {
            d4: bit_set(n, 1),
            d5: bit_set(n, 2),
            d6: bit_set(n, 4),
            d7: bit_set(n, 8),
            ..s
        }),
        latched(s, nibble_ops(n)) == Seq::<(bool, u8)>::empty(),
{
    reveal_with_fuel(run, 5);
    reveal_with_fuel(latched, 5);
    let c = nibble_ops(n);
    assert(c.drop_last().drop_last().drop_last().drop_last() =~= Seq::<BusOp>::empty());
    assert(latched(s, c) =~= Seq::<(bool, u8)>::empty());
}

proof fn lemma_pulse(s: Lines)
    ensures
        run(s, pulse_ops()) == (Lines { e: false, ..s }),
        latched(s, pulse_ops()) == seq![(s.rs, nibble_on(s))],
{
    reveal_with_fuel(run, 6);
    reveal_with_fuel(latched, 6);
    let c = pulse_ops();
    assert(c.drop_last().drop_last().drop_last().drop_last().drop_last() =~= Seq::<
        BusOp,
    >::empty());
    assert(latched(s, c) =~= seq![(s.rs, nibble_on(s))]);
}

proof fn lemma_nibble_value(n: u8)
    requires
        n < 16,
    ensures
        ((if bit_set(n, 1) { 1u8 } else { 0u8 }) | (if bit_set(n, 2) { 2u8 } else { 0u8 }) | (
        if bit_set(n, 4) { 4u8 } else { 0u8 }) | (if bit_set(n, 8) { 8u8 } else { 0u8 })) == n,
{
    assert(((if n & 1 == 1 { 1u8 } else { 0u8 }) | (if n & 2 == 2 { 2u8 } else { 0u8 }) | (if n
        & 4 == 4 { 4u8 } else { 0u8 }) | (if n & 8 == 8 { 8u8 } else { 0u8 })) == n)
        by (bit_vector)
        requires
            n < 16,
    ;
}

proof fn lemma_nibbles_fit(b: u8)
    ensures
        high_nibble(b) < 16,
        low_nibble(b) < 16,
{
    assert(b >> 4 < 16 && b & 0x0F < 16) by (bit_vector);
}

/// The steps that put one nibble on the bus and strobe it.
spec fn half_ops(n: u8) -> Seq<BusOp> {
    clear_ops() + nibble_ops(n) + pulse_ops()
}

proof fn lemma_half(s: Lines, n: u8)
    requires
        n < 16,
    ensures
        run(s, half_ops(n)) == (Lines {
            e: false,
            d4: bit_set(n, 1),
            d5: bit_set(n, 2),
            d6: bit_set(n, 4),
            d7: bit_set(n, 8),
            ..s
        }),
        latched(s, half_ops(n)) == seq![(s.rs, n)],
        data_low(run(s, clear_ops())),
{
    let a = clear_ops();
    let b = a + nibble_ops(n);
    lemma_run_concat(s, a, nibble_ops(n));
    lemma_clear(s);
    lemma_nibble(run(s, a), n);
    lemma_run_concat(s, b, pulse_ops());
    lemma_pulse(run(s, b));
    lemma_nibble_value(n);
    assert(latched(s, b) =~= Seq::<(bool, u8)>::empty());
    assert(latched(s, half_ops(n)) =~= seq![(s.rs, n)]);
}

/// Transmitting a byte puts its high nibble and then its low nibble on the data lines, each
/// latched once with register-select set by the mode; the data lines are low just before each
/// nibble is written, and every data line and the enable line are low when it ends. This holds
/// whatever the lines' levels before.
pub proof fn send_latches_high_then_low(s: Lines, bits: u8, mode: LcdMode)
    ensures
        latched(s, send_ops(bits, mode)) == seq![
            (mode.rs_level(), high_nibble(bits)),
            (mode.rs_level(), low_nibble(bits)),
        ],
        data_low(run(s, send_ops(bits, mode).take(5))),
        data_low(run(s, send_ops(bits, mode).take(18))),
        run(s, send_ops(bits, mode)) == (Lines {
            rs: mode.rs_level(),
            e: false,
            d4: false,
            d5: false,
            d6: false,
            d7: false,
        }),
{
    let rs_op = seq![BusOp::Drive(BusLine::RegisterSelect, mode.rs_level())];
    let hi = high_nibble(bits);
    let lo = low_nibble(bits);
    let p1 = rs_op + half_ops(hi);
    let p2 = p1 + half_ops(lo);
    let all = p2 + clear_ops();
    lemma_nibbles_fit(bits);
    assert(all =~= send_ops(bits, mode));
    lemma_single(s, rs_op[0]);
    assert(rs_op =~= seq![rs_op[0]]);
    let s0 = run(s, rs_op);
    lemma_run_concat(s, rs_op, half_ops(hi));
    lemma_half(s0, hi);
    lemma_run_concat(s, p1, half_ops(lo));
    lemma_half(run(s, p1), lo);
    lemma_run_concat(s, p2, clear_ops());
    lemma_clear(run(s, p2));
    lemma_run_concat(s, rs_op, clear_ops());
    lemma_run_concat(s, p1, clear_ops());
    assert(send_ops(bits, mode).take(5) =~= rs_op + clear_ops());
    assert(send_ops(bits, mode).take(18) =~= p1 + clear_ops());
    let l_hi = seq![(mode.rs_level(), hi)];
    let l_lo = seq![(mode.rs_level(), lo)];
    assert(latched(s, p1) =~= l_hi);
    assert(latched(s, p2) =~= l_hi + l_lo);
    assert(latched(s, all) =~= l_hi + l_lo);
}

/// Writing a row of at most sixteen characters sends the row's address as a command (0x80 for
/// the first row, 0xC0 for the second) and then exactly sixteen characters as character data:
/// the text's own, then spaces.
pub proof fn text_row_frames(text: Seq<char>, line: LcdLine)
    requires
        text.len() <= ROW_WIDTH,
    ensures
        text_frames_spec(text, line).len() == ROW_WIDTH + 1,
        text_frames_spec(text, line)[0] == (Frame { value: line.address_spec(), mode: LcdMode::Command }),
        line == LcdLine::Line1 ==> text_frames_spec(text, line)[0].value == 0x80,
        line == LcdLine::Line2 ==> text_frames_spec(text, line)[0].value == 0xC0,
        forall|i: int|
            0 <= i < ROW_WIDTH ==> #[trigger] text_frames_spec(text, line)[i + 1] == (Frame {
                value: (if i < text.len() { text[i] } else { ' ' }) as u8,
                mode: LcdMode::Character,
            }),
{
    let row = padded(text, ROW_WIDTH as nat);
    assert(row.len() == ROW_WIDTH);
    assert forall|i: int| 0 <= i < ROW_WIDTH implies #[trigger] row[i] == (if i < text.len() {
        text[i]
    } else {
        ' '
    }) by {
        if text.len() < ROW_WIDTH && i >= text.len() {
            assert(row[i] == spaces((ROW_WIDTH - text.len()) as nat)[i - text.len()]);
        }
    }
}

/// Constructing a controller and then resetting it, as dropping it does, leaves every line low,
/// whatever the lines' levels before; the clear-display command is sent once, last, during
/// bring-up and once more, first, during the reset.
pub proof fn construct_then_reset_all_low(s: Lines)
    ensures
        run(s, construct_ops() + reset_ops()) == all_low(),
        init_frames_spec().last() == command_frame(LcdCommand::ClearScreen),
        forall|i: int|
            0 <= i < init_frames_spec().len() - 1 ==> #[trigger] init_frames_spec()[i]
                != command_frame(LcdCommand::ClearScreen),
        reset_ops() == send_ops(0x01, LcdMode::Command) + release_ops(),
{
    let c = construct_ops();
    let clear = send_ops(0x01, LcdMode::Command);
    lemma_run_concat(s, c, reset_ops());
    lemma_run_concat(run(s, c), clear, release_ops());
    lemma_release(run(run(s, c), clear));
}

/// What the display latches for a list of frames: for each frame, its high nibble and then its
/// low nibble, with register-select set by its mode.
pub open spec fn frame_latches(frames: Seq<Frame>) -> Seq<(bool, u8)>
    decreases frames.len(),
{
    if frames.len() == 0 {
        Seq::empty()
    } else {
        let f = frames.last();
        frame_latches(frames.drop_last()) + seq![
            (f.mode.rs_level(), high_nibble(f.value)),
            (f.mode.rs_level(), low_nibble(f.value)),
        ]
    }
}

/// Transmitting a list of frames makes the display latch exactly each frame's two nibbles, in
/// order, whatever the lines' levels before.
pub proof fn frames_latch_in_order(s: Lines, frames: Seq<Frame>)
    ensures
        latched(s, frames_ops(frames)) == frame_latches(frames),
    decreases frames.len(),
{
    if frames.len() > 0 {
        let f = frames.last();
        frames_latch_in_order(s, frames.drop_last());
        lemma_run_concat(s, frames_ops(frames.drop_last()), send_ops(f.value, f.mode));
        send_latches_high_then_low(run(s, frames_ops(frames.drop_last())), f.value, f.mode);
    } else {
        assert(latched(s, frames_ops(frames)) =~= frame_latches(frames));
    }
}

/// A record that drives a line still drives it once more steps follow.
pub proof fn lemma_driven_grows(h: Seq<BusOp>, more: Seq<BusOp>, line: BusLine)
    requires
        driven(h, line),
    ensures
        driven(h + more, line),
{
    let i = choose|i: int| 0 <= i < h.len() && #[trigger] h[i] is Drive && h[i]->Drive_0 == line;
    assert((h + more)[i] == h[i]);
}

proof fn lemma_send_drives(pre: Seq<BusOp>, bits: u8, mode: LcdMode, post: Seq<BusOp>, line: BusLine)
    ensures
        driven(pre + send_ops(bits, mode) + post, line),
{
    let h = pre + send_ops(bits, mode) + post;
    let k: int = match line {
        BusLine::RegisterSelect => 0,
        BusLine::Data4 => 1,
        BusLine::Data5 => 2,
        BusLine::Data6 => 3,
        BusLine::Data7 => 4,
        BusLine::Enable => 10,
    };
    assert(h[pre.len() + k] == send_ops(bits, mode)[k]);
    assert(h[pre.len() + k] is Drive && h[pre.len() + k]->Drive_0 == line);
}

/// Construction leaves every line low, whatever the levels before, and drives each of them.
pub proof fn construct_ends_all_low(s: Lines)
    ensures
        run(s, construct_ops()) == all_low(),
        forall|line: BusLine| #[trigger] driven(construct_ops(), line),
{
    let init = init_frames_spec();
    let pre = frames_ops(init.drop_last());
    let clear = send_ops(0x01, LcdMode::Command);
    let post = seq![BusOp::Wait(1)] + clear_ops();
    assert(frames_ops(init) == pre + clear);
    assert(construct_ops() =~= pre + clear + post);
    lemma_run_concat(s, pre, clear);
    send_latches_high_then_low(run(s, pre), 0x01, LcdMode::Command);
    lemma_run_concat(s, pre + clear, post);
    lemma_run_concat(run(s, pre + clear), seq![BusOp::Wait(1)], clear_ops());
    lemma_single(run(s, pre + clear), BusOp::Wait(1));
    lemma_clear(run(s, pre + clear));
    assert forall|line: BusLine| #[trigger] driven(construct_ops(), line) by {
        lemma_send_drives(pre, 0x01, LcdMode::Command, post, line);
    }
}

} // verus!
