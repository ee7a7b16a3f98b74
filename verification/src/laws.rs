//! The protocol laws: what the driver's runs look like to the bus, proved
//! over the trace model.

use vstd::prelude::*;

use crate::action::{
    bytes_framed, enqueued, framings, lemma_bytes_framed_add, lemma_enqueued_add,
    lemma_framings_add, lemma_lines_after_add, lemma_long_delays_add, lemma_one_action,
    lines_after, long_delays, Action, Lines,
};
use crate::driver::{
    addr_window_seq, enqueue_trace, frame_trace, hi8, init_trace, lo8, pixel_trace,
    push_framebuffer_trace, start_pixels_trace, startup_trace, write_cmd_trace, CMD_COLOR_MODE,
    CMD_COLUMN_WINDOW, CMD_DISPLAY_ON, CMD_INVERT_ON, CMD_MEMORY_ACCESS_CTRL, CMD_MEMORY_WRITE,
    CMD_NORMAL_MODE, CMD_ROW_WINDOW, CMD_SLEEP_OUT, CMD_SOFT_RESET, COLOR_MODE_16BIT, SCR_H, SCR_W,
};

verus! {

/// What a framing run contributes: one framing transition, no bytes, and the
/// lines end at the requested levels.
proof fn lemma_frame_run(s: Lines, d: bool, c: bool, dc: bool, cs: bool)
    ensures
        framings(frame_trace(d, c)) == seq![(d, c)],
        enqueued(frame_trace(d, c)) == Seq::<u8>::empty(),
        lines_after(s, frame_trace(d, c)) == (Lines { dc: d, cs: c }),
        bytes_framed(s, frame_trace(d, c), dc, cs) == Seq::<u8>::empty(),
        long_delays(frame_trace(d, c)) == Seq::<u64>::empty(),
{
    let d1 = seq![Action::Delay(1u64)];
    let fr = seq![Action::Frame { dc: d, cs: c }];
    assert(frame_trace(d, c) =~= d1 + fr + d1);
    lemma_one_action(s, Action::Delay(1u64), dc, cs);
    lemma_one_action(s, Action::Frame { dc: d, cs: c }, dc, cs);
    lemma_framings_add(d1, fr);
    lemma_enqueued_add(d1, fr);
    lemma_lines_after_add(s, d1, fr);
    lemma_bytes_framed_add(s, d1, fr, dc, cs);
    lemma_long_delays_add(d1, fr);
    let mid = Lines { dc: d, cs: c };
    assert(lines_after(s, d1 + fr) == mid);
    lemma_one_action(mid, Action::Delay(1u64), dc, cs);
    lemma_framings_add(d1 + fr, d1);
    lemma_enqueued_add(d1 + fr, d1);
    lemma_lines_after_add(s, d1 + fr, d1);
    lemma_bytes_framed_add(s, d1 + fr, d1, dc, cs);
    lemma_long_delays_add(d1 + fr, d1);
    assert(framings(frame_trace(d, c)) =~= seq![(d, c)]);
    assert(enqueued(frame_trace(d, c)) =~= Seq::<u8>::empty());
    assert(bytes_framed(s, frame_trace(d, c), dc, cs) =~= Seq::<u8>::empty());
    assert(long_delays(frame_trace(d, c)) =~= Seq::<u64>::empty());
}

/// What a pure enqueue run contributes: no framing transition, exactly its
/// bytes, all of them under whatever levels the lines already stand at.
proof fn lemma_enqueue_run(s: Lines, bytes: Seq<u8>, dc: bool, cs: bool)
    ensures
        framings(enqueue_trace(bytes)) == Seq::<(bool, bool)>::empty(),
        enqueued(enqueue_trace(bytes)) == bytes,
        lines_after(s, enqueue_trace(bytes)) == s,
        bytes_framed(s, enqueue_trace(bytes), dc, cs) == (if s.dc == dc && s.cs == cs {
            bytes
        } else {
            Seq::<u8>::empty()
        }),
        long_delays(enqueue_trace(bytes)) == Seq::<u64>::empty(),
    decreases bytes.len(),
{
    if bytes.len() == 0 {
        assert(enqueued(enqueue_trace(bytes)) =~= bytes);
    } else {
        let head = seq![Action::Enqueue(bytes.first())];
        let tail = enqueue_trace(bytes.drop_first());
        assert(enqueue_trace(bytes) == head + tail);
        lemma_one_action(s, Action::Enqueue(bytes.first()), dc, cs);
        assert(lines_after(s, head) == s);
        lemma_enqueue_run(s, bytes.drop_first(), dc, cs);
        lemma_framings_add(head, tail);
        lemma_enqueued_add(head, tail);
        lemma_lines_after_add(s, head, tail);
        lemma_bytes_framed_add(s, head, tail, dc, cs);
        lemma_long_delays_add(head, tail);
        assert(long_delays(enqueue_trace(bytes)) =~= Seq::<u64>::empty());
        assert(framings(enqueue_trace(bytes)) =~= Seq::<(bool, bool)>::empty());
        assert(enqueued(enqueue_trace(bytes)) =~= bytes);
        assert(bytes_framed(s, enqueue_trace(bytes), dc, cs) =~= (if s.dc == dc && s.cs == cs {
            bytes
        } else {
            Seq::<u8>::empty()
        }));
    }
}

/// What the pixel run for `n` pixels contributes: no framing transition and
/// exactly two test-fill bytes per pixel, under the levels the lines already
/// stand at.
proof fn lemma_pixel_run(s: Lines, n: nat, dc: bool, cs: bool)
    ensures
        framings(pixel_trace(n)) == Seq::<(bool, bool)>::empty(),
        enqueued(pixel_trace(n)) == Seq::new(2 * n, |i: int| 0xFFu8),
        lines_after(s, pixel_trace(n)) == s,
        bytes_framed(s, pixel_trace(n), dc, cs) == (if s.dc == dc && s.cs == cs {
            Seq::new(2 * n, |i: int| 0xFFu8)
        } else {
            Seq::<u8>::empty()
        }),
        long_delays(pixel_trace(n)) == Seq::<u64>::empty(),
    decreases n,
{
    if n == 0 {
        assert(enqueued(pixel_trace(n)) =~= Seq::new(2 * n, |i: int| 0xFFu8));
        assert(bytes_framed(s, pixel_trace(n), dc, cs) =~= (if s.dc == dc && s.cs == cs {
            Seq::new(2 * n, |i: int| 0xFFu8)
        } else {
            Seq::<u8>::empty()
        }));
    } else {
        let front = pixel_trace((n - 1) as nat);
        let one = seq![Action::Enqueue(0xFFu8)];
        let pair = seq![Action::Enqueue(0xFFu8), Action::Enqueue(0xFFu8)];
        assert(pair =~= one + one);
        lemma_pixel_run(s, (n - 1) as nat, dc, cs);
        lemma_one_action(s, Action::Enqueue(0xFFu8), dc, cs);
        lemma_framings_add(one, one);
        lemma_enqueued_add(one, one);
        lemma_lines_after_add(s, one, one);
        lemma_bytes_framed_add(s, one, one, dc, cs);
        lemma_long_delays_add(one, one);
        lemma_framings_add(front, pair);
        lemma_enqueued_add(front, pair);
        lemma_lines_after_add(s, front, pair);
        lemma_bytes_framed_add(s, front, pair, dc, cs);
        lemma_long_delays_add(front, pair);
        assert(long_delays(pixel_trace(n)) =~= Seq::<u64>::empty());
        assert(framings(pixel_trace(n)) =~= Seq::<(bool, bool)>::empty());
        assert(enqueued(pixel_trace(n)) =~= Seq::new(2 * n, |i: int| 0xFFu8));
        assert(bytes_framed(s, pixel_trace(n), dc, cs) =~= (if s.dc == dc && s.cs == cs {
            Seq::new(2 * n, |i: int| 0xFFu8)
        } else {
            Seq::<u8>::empty()
        }));
    }
}

/// What one command write does to the bus, from any starting levels: the
/// lines end idle (data, deselected); the whole command is enqueued in
/// order; the framing transitions are exactly command-then-idle for a
/// one-byte command and command-data-idle for a longer one; the opcode is
/// the one byte enqueued under command framing, and the parameter bytes are
/// exactly what is enqueued under data framing.
pub proof fn lemma_command_write_run(s: Lines, cmd: Seq<u8>, dc: bool, cs: bool)
    requires
        cmd.len() >= 1,
    ensures
        lines_after(s, write_cmd_trace(cmd)) == (Lines { dc: true, cs: true }),
        enqueued(write_cmd_trace(cmd)) == cmd,
        framings(write_cmd_trace(cmd)) == (if cmd.len() == 1 {
            seq![(false, false), (true, true)]
        } else {
            seq![(false, false), (true, false), (true, true)]
        }),
        bytes_framed(s, write_cmd_trace(cmd), dc, cs) == (if !dc && !cs {
            seq![cmd[0]]
        } else if dc && !cs {
            cmd.drop_first()
        } else {
            Seq::<u8>::empty()
        }),
        long_delays(write_cmd_trace(cmd)) == Seq::<u64>::empty(),
{
    let drain = seq![Action::Drain];
    let opc = seq![Action::Enqueue(cmd[0])];
    let cff = Lines { dc: false, cs: false };
    let ctf = Lines { dc: true, cs: false };
    let mid = if cmd.len() >= 2 {
        drain + frame_trace(true, false) + enqueue_trace(cmd.drop_first())
    } else {
        Seq::<Action>::empty()
    };
    let wct = write_cmd_trace(cmd);
    assert(wct == drain + frame_trace(false, false) + opc + mid + drain + frame_trace(true, true));

    let p1 = drain;
    let p2 = p1 + frame_trace(false, false);
    let p3 = p2 + opc;
    let p4 = p3 + mid;
    let p5 = p4 + drain;

    lemma_one_action(s, Action::Drain, dc, cs);
    assert(lines_after(s, p1) == s);
    assert(framings(p1) == Seq::<(bool, bool)>::empty());
    assert(enqueued(p1) == Seq::<u8>::empty());
    assert(bytes_framed(s, p1, dc, cs) == Seq::<u8>::empty());

    lemma_frame_run(s, false, false, dc, cs);
    lemma_framings_add(p1, frame_trace(false, false));
    lemma_enqueued_add(p1, frame_trace(false, false));
    lemma_lines_after_add(s, p1, frame_trace(false, false));
    lemma_bytes_framed_add(s, p1, frame_trace(false, false), dc, cs);
    lemma_long_delays_add(p1, frame_trace(false, false));
    assert(lines_after(s, p2) == cff);
    assert(framings(p2) =~= seq![(false, false)]);
    assert(enqueued(p2) =~= Seq::<u8>::empty());
    assert(bytes_framed(s, p2, dc, cs) =~= Seq::<u8>::empty());
    assert(long_delays(p2) =~= Seq::<u64>::empty());

    lemma_one_action(cff, Action::Enqueue(cmd[0]), dc, cs);
    lemma_framings_add(p2, opc);
    lemma_enqueued_add(p2, opc);
    lemma_lines_after_add(s, p2, opc);
    lemma_bytes_framed_add(s, p2, opc, dc, cs);
    lemma_long_delays_add(p2, opc);
    assert(lines_after(s, p3) == cff);
    assert(long_delays(p3) =~= Seq::<u64>::empty());
    assert(framings(p3) =~= seq![(false, false)]);
    assert(enqueued(p3) =~= seq![cmd[0]]);
    assert(bytes_framed(s, p3, dc, cs) =~= (if !dc && !cs {
        seq![cmd[0]]
    } else {
        Seq::<u8>::empty()
    }));

    if cmd.len() >= 2 {
        let rest = cmd.drop_first();
        let m2 = drain + frame_trace(true, false);
        assert(mid == m2 + enqueue_trace(rest));
        lemma_one_action(cff, Action::Drain, dc, cs);
        lemma_frame_run(cff, true, false, dc, cs);
        lemma_framings_add(drain, frame_trace(true, false));
        lemma_enqueued_add(drain, frame_trace(true, false));
        lemma_lines_after_add(cff, drain, frame_trace(true, false));
        lemma_bytes_framed_add(cff, drain, frame_trace(true, false), dc, cs);
        lemma_long_delays_add(drain, frame_trace(true, false));
        assert(lines_after(cff, m2) == ctf);
        lemma_enqueue_run(ctf, rest, dc, cs);
        lemma_framings_add(m2, enqueue_trace(rest));
        lemma_enqueued_add(m2, enqueue_trace(rest));
        lemma_lines_after_add(cff, m2, enqueue_trace(rest));
        lemma_bytes_framed_add(cff, m2, enqueue_trace(rest), dc, cs);
        lemma_long_delays_add(m2, enqueue_trace(rest));
        assert(lines_after(cff, mid) == ctf);
        assert(framings(mid) =~= seq![(true, false)]);
        assert(enqueued(mid) =~= rest);
        assert(bytes_framed(cff, mid, dc, cs) =~= (if dc && !cs {
            rest
        } else {
            Seq::<u8>::empty()
        }));
        assert(long_delays(mid) =~= Seq::<u64>::empty());
    } else {
        assert(lines_after(cff, mid) == cff);
        assert(framings(mid) == Seq::<(bool, bool)>::empty());
        assert(enqueued(mid) == Seq::<u8>::empty());
        assert(bytes_framed(cff, mid, dc, cs) == Seq::<u8>::empty());
        assert(long_delays(mid) == Seq::<u64>::empty());
    }

    let s4 = lines_after(cff, mid);
    lemma_framings_add(p3, mid);
    lemma_enqueued_add(p3, mid);
    lemma_lines_after_add(s, p3, mid);
    lemma_bytes_framed_add(s, p3, mid, dc, cs);
    lemma_long_delays_add(p3, mid);
    assert(lines_after(s, p4) == s4);

    lemma_one_action(s4, Action::Drain, dc, cs);
    lemma_framings_add(p4, drain);
    lemma_enqueued_add(p4, drain);
    lemma_lines_after_add(s, p4, drain);
    lemma_bytes_framed_add(s, p4, drain, dc, cs);
    lemma_long_delays_add(p4, drain);
    assert(lines_after(s, p5) == s4);

    lemma_frame_run(s4, true, true, dc, cs);
    lemma_framings_add(p5, frame_trace(true, true));
    lemma_enqueued_add(p5, frame_trace(true, true));
    lemma_lines_after_add(s, p5, frame_trace(true, true));
    lemma_bytes_framed_add(s, p5, frame_trace(true, true), dc, cs);
    lemma_long_delays_add(p5, frame_trace(true, true));

    assert(lines_after(s, wct) == (Lines { dc: true, cs: true }));
    assert(long_delays(wct) =~= Seq::<u64>::empty());
    assert(enqueued(wct) =~= cmd);
    assert(framings(wct) =~= (if cmd.len() == 1 {
        seq![(false, false), (true, true)]
    } else {
        seq![(false, false), (true, false), (true, true)]
    }));
    assert(bytes_framed(s, wct, dc, cs) =~= (if !dc && !cs {
        seq![cmd[0]]
    } else if dc && !cs {
        cmd.drop_first()
    } else {
        Seq::<u8>::empty()
    }));
}

/// Writing a one-byte command never enters data framing: from any starting
/// levels, the framing transitions are exactly command framing then idle
/// framing, and no transition selects the controller with the data/command
/// line high.
pub proof fn lemma_single_byte_command_framing(cmd: Seq<u8>)
    requires
        cmd.len() == 1,
    ensures
        framings(write_cmd_trace(cmd)) == seq![(false, false), (true, true)],
        !framings(write_cmd_trace(cmd)).contains((true, false)),
{
    lemma_command_write_run(Lines { dc: false, cs: true }, cmd, false, false);
}

/// Writing a command of more than one byte performs exactly one
/// command-framing transition and one data-framing transition, and ends in
/// idle framing, whatever the length of the payload.
pub proof fn lemma_multi_byte_command_framing(cmd: Seq<u8>)
    requires
        cmd.len() >= 2,
    ensures
        framings(write_cmd_trace(cmd)) == seq![(false, false), (true, false), (true, true)],
{
    lemma_command_write_run(Lines { dc: false, cs: true }, cmd, false, false);
}

/// The framebuffer push emits exactly two bytes per pixel of the fixed grid
/// — SCR_W × SCR_H × 2 = 153600 bytes — after the one framing entry of
/// `start_pixels`, with no framing change from there to completion.
pub proof fn lemma_framebuffer_stream()
    ensures
        push_framebuffer_trace() == start_pixels_trace() + pixel_trace((SCR_W * SCR_H) as nat),
        framings(pixel_trace((SCR_W * SCR_H) as nat)) == Seq::<(bool, bool)>::empty(),
        enqueued(pixel_trace((SCR_W * SCR_H) as nat)).len() == 153600,
{
    lemma_pixel_run(Lines { dc: true, cs: false }, (SCR_W * SCR_H) as nat, true, false);
}

/// What the whole framebuffer push does to the bus, from any starting
/// levels: the memory-write opcode is the one byte sent under command
/// framing, the full two-bytes-per-pixel payload is sent under data framing,
/// and the lines end in data framing with the controller still selected.
pub proof fn lemma_push_framebuffer_run(s: Lines, dc: bool, cs: bool)
    ensures
        lines_after(s, push_framebuffer_trace()) == (Lines { dc: true, cs: false }),
        bytes_framed(s, push_framebuffer_trace(), dc, cs) == (if !dc && !cs {
            seq![CMD_MEMORY_WRITE]
        } else if dc && !cs {
            Seq::new(2 * ((SCR_W * SCR_H) as nat), |i: int| 0xFFu8)
        } else {
            Seq::<u8>::empty()
        }),
        long_delays(push_framebuffer_trace()) == Seq::<u64>::empty(),
{
    let ctt = Lines { dc: true, cs: true };
    let ctf = Lines { dc: true, cs: false };
    let sp = start_pixels_trace();
    let pix = pixel_trace((SCR_W * SCR_H) as nat);
    let wmem = write_cmd_trace(seq![CMD_MEMORY_WRITE]);
    assert(push_framebuffer_trace() == sp + pix);
    assert(sp == wmem + frame_trace(true, false));
    assert(seq![CMD_MEMORY_WRITE].drop_first() =~= Seq::<u8>::empty());
    lemma_command_write_run(s, seq![CMD_MEMORY_WRITE], dc, cs);
    lemma_frame_run(ctt, true, false, dc, cs);
    lemma_lines_after_add(s, wmem, frame_trace(true, false));
    lemma_bytes_framed_add(s, wmem, frame_trace(true, false), dc, cs);
    lemma_long_delays_add(wmem, frame_trace(true, false));
    assert(lines_after(s, sp) == ctf);
    lemma_pixel_run(ctf, (SCR_W * SCR_H) as nat, dc, cs);
    lemma_lines_after_add(s, sp, pix);
    lemma_bytes_framed_add(s, sp, pix, dc, cs);
    lemma_long_delays_add(sp, pix);
    assert(long_delays(push_framebuffer_trace()) =~= Seq::<u64>::empty());
    assert(bytes_framed(s, push_framebuffer_trace(), dc, cs) =~= (if !dc && !cs {
        seq![CMD_MEMORY_WRITE]
    } else if dc && !cs {
        Seq::new(2 * ((SCR_W * SCR_H) as nat), |i: int| 0xFFu8)
    } else {
        Seq::<u8>::empty()
    }));
}

/// A fresh driver's startup run leaves the framing lines with the
/// data/command line low and the controller deselected.
pub proof fn lemma_startup_lines(s: Lines)
    ensures
        lines_after(s, startup_trace()) == (Lines { dc: false, cs: true }),
{
    let b = seq![Action::Backlight(false)];
    let f = seq![Action::Frame { dc: false, cs: true }];
    let r = seq![Action::Reset(true)];
    assert(startup_trace() =~= b + f + r);
    lemma_one_action(s, Action::Backlight(false), false, false);
    lemma_one_action(s, Action::Frame { dc: false, cs: true }, false, false);
    lemma_lines_after_add(s, b, f);
    let cft = Lines { dc: false, cs: true };
    assert(lines_after(s, b + f) == cft);
    lemma_one_action(cft, Action::Reset(true), false, false);
    lemma_lines_after_add(s, b + f, r);
}

/// End to end: from any starting levels, the initialization run issues
/// under command framing exactly the opcodes soft-reset, sleep-out,
/// color-mode, memory-access control, column window, row window, inversion,
/// normal mode and display-on, in that order, followed by the memory-write
/// opcode of the framebuffer push, and it ends in data framing with the
/// controller still selected. The inter-command delays of the run are
/// exactly the documented ones, in order: 100 ms after the reset, 50 ms
/// after leaving sleep, and 10 ms after the color mode, the inversion, the
/// normal mode and the display-on commands.
pub proof fn lemma_init_command_order(s: Lines)
    ensures
        bytes_framed(s, init_trace(), false, false) == seq![
            CMD_SOFT_RESET,
            CMD_SLEEP_OUT,
            CMD_COLOR_MODE,
            CMD_MEMORY_ACCESS_CTRL,
            CMD_COLUMN_WINDOW,
            CMD_ROW_WINDOW,
            CMD_INVERT_ON,
            CMD_NORMAL_MODE,
            CMD_DISPLAY_ON,
            CMD_MEMORY_WRITE,
        ],
        lines_after(s, init_trace()) == (Lines { dc: true, cs: false }),
        long_delays(init_trace()) == seq![
            100000u64,
            50000u64,
            10000u64,
            10000u64,
            10000u64,
            10000u64,
        ],
{
    let ctt = Lines { dc: true, cs: true };
    let ctf = Lines { dc: true, cs: false };
    let c1 = seq![CMD_SOFT_RESET];
    let c2 = seq![CMD_SLEEP_OUT];
    let c3 = seq![CMD_COLOR_MODE, COLOR_MODE_16BIT];
    let c4 = seq![CMD_MEMORY_ACCESS_CTRL, 0u8];
    let c5 = addr_window_seq(CMD_COLUMN_WINDOW, SCR_W as u16);
    let c6 = addr_window_seq(CMD_ROW_WINDOW, SCR_H as u16);
    let c7 = seq![CMD_INVERT_ON];
    let c8 = seq![CMD_NORMAL_MODE];
    let c9 = seq![CMD_DISPLAY_ON];
    let d100 = seq![Action::Delay(100000u64)];
    let d50 = seq![Action::Delay(50000u64)];
    let d10 = seq![Action::Delay(10000u64)];
    let pf = push_framebuffer_trace();
    let bl = seq![Action::Backlight(true)];

    let q1 = write_cmd_trace(c1);
    let q2 = q1 + d100;
    let q3 = q2 + write_cmd_trace(c2);
    let q4 = q3 + d50;
    let q5 = q4 + write_cmd_trace(c3);
    let q6 = q5 + d10;
    let q7 = q6 + write_cmd_trace(c4);
    let q8 = q7 + write_cmd_trace(c5);
    let q9 = q8 + write_cmd_trace(c6);
    let q10 = q9 + write_cmd_trace(c7);
    let q11 = q10 + d10;
    let q12 = q11 + write_cmd_trace(c8);
    let q13 = q12 + d10;
    let q14 = q13 + write_cmd_trace(c9);
    let q15 = q14 + d10;
    let q16 = q15 + pf;
    assert(init_trace() == q16 + bl);

    lemma_command_write_run(s, c1, false, false);
    assert(lines_after(s, q1) == ctt);

    lemma_one_action(ctt, Action::Delay(100000u64), false, false);
    lemma_lines_after_add(s, q1, d100);
    lemma_bytes_framed_add(s, q1, d100, false, false);
    lemma_long_delays_add(q1, d100);
    assert(lines_after(s, q2) == ctt);

    lemma_command_write_run(ctt, c2, false, false);
    lemma_lines_after_add(s, q2, write_cmd_trace(c2));
    lemma_bytes_framed_add(s, q2, write_cmd_trace(c2), false, false);
    lemma_long_delays_add(q2, write_cmd_trace(c2));
    assert(lines_after(s, q3) == ctt);

    lemma_one_action(ctt, Action::Delay(50000u64), false, false);
    lemma_lines_after_add(s, q3, d50);
    lemma_bytes_framed_add(s, q3, d50, false, false);
    lemma_long_delays_add(q3, d50);
    assert(lines_after(s, q4) == ctt);

    lemma_command_write_run(ctt, c3, false, false);
    lemma_lines_after_add(s, q4, write_cmd_trace(c3));
    lemma_bytes_framed_add(s, q4, write_cmd_trace(c3), false, false);
    lemma_long_delays_add(q4, write_cmd_trace(c3));
    assert(lines_after(s, q5) == ctt);

    lemma_one_action(ctt, Action::Delay(10000u64), false, false);
    lemma_lines_after_add(s, q5, d10);
    lemma_bytes_framed_add(s, q5, d10, false, false);
    lemma_long_delays_add(q5, d10);
    assert(lines_after(s, q6) == ctt);

    lemma_command_write_run(ctt, c4, false, false);
    lemma_lines_after_add(s, q6, write_cmd_trace(c4));
    lemma_bytes_framed_add(s, q6, write_cmd_trace(c4), false, false);
    lemma_long_delays_add(q6, write_cmd_trace(c4));
    assert(lines_after(s, q7) == ctt);

    lemma_command_write_run(ctt, c5, false, false);
    lemma_lines_after_add(s, q7, write_cmd_trace(c5));
    lemma_bytes_framed_add(s, q7, write_cmd_trace(c5), false, false);
    lemma_long_delays_add(q7, write_cmd_trace(c5));
    assert(lines_after(s, q8) == ctt);

    lemma_command_write_run(ctt, c6, false, false);
    lemma_lines_after_add(s, q8, write_cmd_trace(c6));
    lemma_bytes_framed_add(s, q8, write_cmd_trace(c6), false, false);
    lemma_long_delays_add(q8, write_cmd_trace(c6));
    assert(lines_after(s, q9) == ctt);

    lemma_command_write_run(ctt, c7, false, false);
    lemma_lines_after_add(s, q9, write_cmd_trace(c7));
    lemma_bytes_framed_add(s, q9, write_cmd_trace(c7), false, false);
    lemma_long_delays_add(q9, write_cmd_trace(c7));
    assert(lines_after(s, q10) == ctt);

    lemma_lines_after_add(s, q10, d10);
    lemma_bytes_framed_add(s, q10, d10, false, false);
    lemma_long_delays_add(q10, d10);
    assert(lines_after(s, q11) == ctt);

    lemma_command_write_run(ctt, c8, false, false);
    lemma_lines_after_add(s, q11, write_cmd_trace(c8));
    lemma_bytes_framed_add(s, q11, write_cmd_trace(c8), false, false);
    lemma_long_delays_add(q11, write_cmd_trace(c8));
    assert(lines_after(s, q12) == ctt);

    lemma_lines_after_add(s, q12, d10);
    lemma_bytes_framed_add(s, q12, d10, false, false);
    lemma_long_delays_add(q12, d10);
    assert(lines_after(s, q13) == ctt);

    lemma_command_write_run(ctt, c9, false, false);
    lemma_lines_after_add(s, q13, write_cmd_trace(c9));
    lemma_bytes_framed_add(s, q13, write_cmd_trace(c9), false, false);
    lemma_long_delays_add(q13, write_cmd_trace(c9));
    assert(lines_after(s, q14) == ctt);

    lemma_lines_after_add(s, q14, d10);
    lemma_bytes_framed_add(s, q14, d10, false, false);
    lemma_long_delays_add(q14, d10);
    assert(lines_after(s, q15) == ctt);

    lemma_push_framebuffer_run(ctt, false, false);
    lemma_lines_after_add(s, q15, pf);
    lemma_bytes_framed_add(s, q15, pf, false, false);
    lemma_long_delays_add(q15, pf);
    assert(lines_after(s, q16) == ctf);

    lemma_one_action(ctf, Action::Backlight(true), false, false);
    lemma_lines_after_add(s, q16, bl);
    lemma_bytes_framed_add(s, q16, bl, false, false);
    lemma_long_delays_add(q16, bl);
    assert(lines_after(s, init_trace()) == ctf);

    assert(long_delays(init_trace()) =~= seq![
        100000u64,
        50000u64,
        10000u64,
        10000u64,
        10000u64,
        10000u64,
    ]);

    assert(bytes_framed(s, init_trace(), false, false) =~= seq![
        CMD_SOFT_RESET,
        CMD_SLEEP_OUT,
        CMD_COLOR_MODE,
        CMD_MEMORY_ACCESS_CTRL,
        CMD_COLUMN_WINDOW,
        CMD_ROW_WINDOW,
        CMD_INVERT_ON,
        CMD_NORMAL_MODE,
        CMD_DISPLAY_ON,
        CMD_MEMORY_WRITE,
    ]);
}

/// An address-window command encodes its 16-bit end value big-endian: the
/// high byte stands first, and the two parameter bytes together give back
/// exactly the encoded value.
pub proof fn lemma_window_big_endian(opcode: u8, end: u16)
    ensures
        addr_window_seq(opcode, end).len() == 5,
        addr_window_seq(opcode, end)[0] == opcode,
        addr_window_seq(opcode, end)[3] == hi8(end),
        addr_window_seq(opcode, end)[4] == lo8(end),
        (hi8(end) as int) * 256 + (lo8(end) as int) == end as int,
{
    assert(((end >> 8) as u8) * 256 + ((end & 0xFF) as u8) == end) by (bit_vector);
}

} // verus!
