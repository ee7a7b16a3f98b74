//! The display driver: command framing, the fixed initialization sequence,
//! and the framebuffer stream.

use vstd::prelude::*;

use crate::action::Action;
use crate::program::{compile_shift_program, engine_config, EngineConfig, SeqProgram};
use crate::program::{configured_for, is_shift_program};

verus! {

/// Width of the pixel grid, in pixels.
pub const SCR_W: usize = 240;

/// Height of the pixel grid, in pixels.
pub const SCR_H: usize = 320;

/// Software reset.
pub const CMD_SOFT_RESET: u8 = 0x01;

/// Exit sleep mode.
pub const CMD_SLEEP_OUT: u8 = 0x11;

/// Set the pixel color format.
pub const CMD_COLOR_MODE: u8 = 0x3A;

/// Set memory-access / orientation control.
pub const CMD_MEMORY_ACCESS_CTRL: u8 = 0x36;

/// Set the column address window.
pub const CMD_COLUMN_WINDOW: u8 = 0x2A;

/// Set the row address window.
pub const CMD_ROW_WINDOW: u8 = 0x2B;

/// Turn display inversion on.
pub const CMD_INVERT_ON: u8 = 0x21;

/// Normal display mode.
pub const CMD_NORMAL_MODE: u8 = 0x13;

/// Display on.
pub const CMD_DISPLAY_ON: u8 = 0x29;

/// Memory write: pixel data follows.
pub const CMD_MEMORY_WRITE: u8 = 0x2C;

/// Parameter of [`CMD_COLOR_MODE`] selecting 16-bit color.
pub const COLOR_MODE_16BIT: u8 = 0x55;

/// The driver's model of the display peripherals it owns: the levels it has
/// driven the control lines to, the compiled sequencing program and engine
/// configuration, and the pixel grid.
///
/// The surrounding binary constructs the hardware side from this model once:
/// it installs `program` into the engine's program slot (exactly once for
/// the driver's lifetime), applies `config`, declares the two engine lines
/// outputs, and starts the engine, which then runs forever. After that it
/// performs the [`Action`] runs the methods return, in order.
pub struct St7789 {
    /// Level of the data/command-select line (low marks command bytes).
    pub dc: bool,
    /// Level of the chip-select line (low selects the controller).
    pub cs: bool,
    /// Level of the backlight-enable line.
    pub backlight: bool,
    /// Level of the reset line (high keeps the controller out of reset).
    pub rst: bool,
    /// Whether the engine has been started. Set at construction and never
    /// cleared: the engine is never stopped or reconfigured.
    pub running: bool,
    /// The compiled sequencing program.
    pub program: SeqProgram,
    /// The engine configuration the program runs under.
    pub config: EngineConfig,
    /// The pixel grid, in column-major order: entry `c * SCR_H + r` is the
    /// 16-bit color of column `c`, row `r`. Allocated zeroed with the driver
    /// and never written; the transmitter walks it but deliberately emits a
    /// fixed test fill instead of the stored values.
    pub framebuffer: Vec<u16>,
}

/// The run a `set_dc_cs` call performs: a settle delay, both framing lines,
/// another settle delay. The delays satisfy the controller's setup and hold
/// timing around the transitions.
pub open spec fn frame_trace(dc: bool, cs: bool) -> Seq<Action> {
    seq![Action::Delay(1), Action::Frame { dc: dc, cs: cs }, Action::Delay(1)]
}

/// One `Enqueue` action per byte, in order.
pub open spec fn enqueue_trace(bytes: Seq<u8>) -> Seq<Action>
    decreases bytes.len(),
{
    if bytes.len() == 0 {
        Seq::empty()
    } else {
        seq![Action::Enqueue(bytes.first())] + enqueue_trace(bytes.drop_first())
    }
}

/// The run a `write_cmd` call performs: drain, command framing, the opcode
/// byte; for a multi-byte command a second drain, data framing and the
/// parameter bytes; then a final drain and idle framing. Every command write
/// leaves the bus deselected, whatever the payload length.
pub open spec fn write_cmd_trace(cmd: Seq<u8>) -> Seq<Action> {
    seq![Action::Drain] + frame_trace(false, false) + seq![Action::Enqueue(cmd[0])] + (if cmd.len()
        >= 2 {
        seq![Action::Drain] + frame_trace(true, false) + enqueue_trace(cmd.drop_first())
    } else {
        Seq::<Action>::empty()
    }) + seq![Action::Drain] + frame_trace(true, true)
}

/// The run a `start_pixels` call performs: the memory-write command, then
/// data framing re-entered without a drain, so that a long pixel burst can
/// follow with no framing change per byte.
pub open spec fn start_pixels_trace() -> Seq<Action> {
    write_cmd_trace(seq![CMD_MEMORY_WRITE]) + frame_trace(true, false)
}

/// The two fixed test-fill bytes for each of `n` pixels.
pub open spec fn pixel_trace(n: nat) -> Seq<Action>
    decreases n,
{
    if n == 0 {
        Seq::empty()
    } else {
        pixel_trace((n - 1) as nat) + seq![Action::Enqueue(0xFFu8), Action::Enqueue(0xFFu8)]
    }
}

/// The run a `push_framebuffer` call performs.
pub open spec fn push_framebuffer_trace() -> Seq<Action> {
    start_pixels_trace() + pixel_trace((SCR_W * SCR_H) as nat)
}

/// High byte of a 16-bit value.
pub open spec fn hi8(v: u16) -> u8 {
    (v >> 8) as u8
}

/// Low byte of a 16-bit value.
pub open spec fn lo8(v: u16) -> u8 {
    (v & 0xFF) as u8
}

/// An address-window command: the opcode, a zero 16-bit start address, and
/// the end value split big-endian across two parameter bytes.
pub open spec fn addr_window_seq(opcode: u8, end: u16) -> Seq<u8> {
    seq![opcode, 0u8, 0u8, hi8(end), lo8(end)]
}

/// The pin levels a freshly constructed driver establishes: backlight off,
/// data/command low, chip-select deselected, reset held inactive (any actual
/// reset pulse is the caller's or the hardware default's).
pub open spec fn startup_trace() -> Seq<Action> {
    seq![Action::Backlight(false), Action::Frame { dc: false, cs: true }, Action::Reset(true)]
}

/// The run an `init` call performs: the nine controller commands in their
/// mandated order, each followed by its documented delay, then the full
/// framebuffer push and the backlight.
pub open spec fn init_trace() -> Seq<Action> {
    write_cmd_trace(seq![CMD_SOFT_RESET]) + seq![Action::Delay(100000u64)] + write_cmd_trace(
        seq![CMD_SLEEP_OUT],
    ) + seq![Action::Delay(50000u64)] + write_cmd_trace(seq![CMD_COLOR_MODE, COLOR_MODE_16BIT])
        + seq![Action::Delay(10000u64)] + write_cmd_trace(seq![CMD_MEMORY_ACCESS_CTRL, 0u8])
        + write_cmd_trace(addr_window_seq(CMD_COLUMN_WINDOW, SCR_W as u16)) + write_cmd_trace(
        addr_window_seq(CMD_ROW_WINDOW, SCR_H as u16),
    ) + write_cmd_trace(seq![CMD_INVERT_ON]) + seq![Action::Delay(10000u64)] + write_cmd_trace(
        seq![CMD_NORMAL_MODE],
    ) + seq![Action::Delay(10000u64)] + write_cmd_trace(seq![CMD_DISPLAY_ON]) + seq![
        Action::Delay(10000u64),
    ] + push_framebuffer_trace() + seq![Action::Backlight(true)]
}

/// Appending one byte appends one `Enqueue` action.
pub proof fn lemma_enqueue_trace_push(bytes: Seq<u8>, b: u8)
    ensures
        enqueue_trace(bytes.push(b)) == enqueue_trace(bytes) + seq![Action::Enqueue(b)],
    decreases bytes.len(),
{
    if bytes.len() == 0 {
        assert(bytes.push(b).first() == b);
        assert(bytes.push(b).drop_first() =~= Seq::<u8>::empty());
        assert(enqueue_trace(Seq::<u8>::empty()) == Seq::<Action>::empty());
        assert(enqueue_trace(bytes) == Seq::<Action>::empty());
        assert(enqueue_trace(bytes.push(b)) =~= enqueue_trace(bytes) + seq![Action::Enqueue(b)]);
    } else {
        assert(bytes.push(b).drop_first() =~= bytes.drop_first().push(b));
        assert(bytes.push(b).first() == bytes.first());
        lemma_enqueue_trace_push(bytes.drop_first(), b);
        assert(enqueue_trace(bytes.push(b)) =~= enqueue_trace(bytes) + seq![Action::Enqueue(b)]);
    }
}

/// Wait until the transmit queue is empty and the engine has stalled, so no
/// byte of a prior burst is still in flight when framing lines change.
fn wait_idle(out: &mut Vec<Action>)
    ensures
        final(out)@ == old(out)@ + seq![Action::Drain],
{
    out.push(Action::Drain);
    assert(final(out)@ =~= old(out)@ + seq![Action::Drain]);
}

/// Block for the given number of microseconds on the countdown timer.
fn sleep(out: &mut Vec<Action>, micros: u64)
    ensures
        final(out)@ == old(out)@ + seq![Action::Delay(micros)],
{
    out.push(Action::Delay(micros));
    assert(final(out)@ =~= old(out)@ + seq![Action::Delay(micros)]);
}

/// Hand one byte to the engine's transmit queue.
fn write(out: &mut Vec<Action>, byte: u8)
    ensures
        final(out)@ == old(out)@ + seq![Action::Enqueue(byte)],
{
    out.push(Action::Enqueue(byte));
    assert(final(out)@ =~= old(out)@ + seq![Action::Enqueue(byte)]);
}

/// The 32-bit transmit-queue word that carries one byte: the byte stands
/// left-justified, shifted up by 24 bits, so that under an 8-bit refill
/// threshold and left (most-significant-bit-first) shift direction the
/// engine sends exactly this byte per queue entry. The byte is recoverable
/// from the word's top eight bits.
pub fn queue_word(byte: u8) -> (r: u32)
    ensures
        r == (byte as u32) << 24,
        r >> 24 == byte as u32,
{
    proof {
        assert((byte as u32) << 24 >> 24 == byte as u32) by (bit_vector);
    }
    (byte as u32) << 24
}

/// Build an address-window command for the range `[0, end)`: opcode, zero
/// start address, and `end` split big-endian over two parameter bytes.
pub fn addr_window_bytes(opcode: u8, end: u16) -> (r: Vec<u8>)
    ensures
        r@ == addr_window_seq(opcode, end),
{
    let mut v: Vec<u8> = Vec::new();
    v.push(opcode);
    v.push(0u8);
    v.push(0u8);
    v.push((end >> 8) as u8);
    v.push((end & 0xFF) as u8);
    assert(v@ =~= addr_window_seq(opcode, end));
    v
}

impl St7789 {
    /// The framebuffer holds one entry per pixel of the fixed grid.
    pub open spec fn wf(self) -> bool {
        self.framebuffer@.len() == SCR_W * SCR_H
    }

    /// Construct the driver model. The returned run establishes the initial
    /// pin levels; the compiled program and engine configuration stand in
    /// the returned driver for the surrounding binary to install, apply and
    /// start before performing any further run.
    pub fn new(data_pin: u8, clock_pin: u8) -> (r: (St7789, Vec<Action>))
        ensures
            r.0.wf(),
            !r.0.dc,
            r.0.cs,
            !r.0.backlight,
            r.0.rst,
            r.0.running,
            r.0.framebuffer@ == Seq::new((SCR_W * SCR_H) as nat, |i: int| 0u16),
            is_shift_program(r.0.program),
            configured_for(r.0.config, data_pin, clock_pin),
            r.1@ == startup_trace(),
    {
        let mut out: Vec<Action> = Vec::new();
        out.push(Action::Backlight(false));
        out.push(Action::Frame { dc: false, cs: true });
        out.push(Action::Reset(true));
        assert(out@ =~= startup_trace());

        let program = compile_shift_program();
        let config = engine_config(data_pin, clock_pin);

        let mut framebuffer: Vec<u16> = Vec::new();
        let mut i: usize = 0;
        while i < SCR_W * SCR_H
            invariant
                i <= SCR_W * SCR_H,
                framebuffer@ == Seq::new(i as nat, |j: int| 0u16),
            decreases SCR_W * SCR_H - i,
        {
            framebuffer.push(0u16);
            i += 1;
            assert(framebuffer@ =~= Seq::new(i as nat, |j: int| 0u16));
        }

        let driver = St7789 {
            dc: false,
            cs: true,
            backlight: false,
            rst: true,
            running: true,
            program,
            config,
            framebuffer,
        };
        (driver, out)
    }

    /// Enable the backlight.
    pub fn backlight_on(&mut self) -> (r: Vec<Action>)
        ensures
            r@ == seq![Action::Backlight(true)],
            *final(self) == (St7789 { backlight: true, ..*old(self) }),
    {
        self.backlight = true;
        let mut out: Vec<Action> = Vec::new();
        out.push(Action::Backlight(true));
        assert(out@ =~= seq![Action::Backlight(true)]);
        out
    }

    /// Disable the backlight.
    pub fn _backlight_off(&mut self) -> (r: Vec<Action>)
        ensures
            r@ == seq![Action::Backlight(false)],
            *final(self) == (St7789 { backlight: false, ..*old(self) }),
    {
        self.backlight = false;
        let mut out: Vec<Action> = Vec::new();
        out.push(Action::Backlight(false));
        assert(out@ =~= seq![Action::Backlight(false)]);
        out
    }

    /// Set the data/command-select and chip-select lines, with a one
    /// microsecond settle delay on each side of the transition.
    pub fn set_dc_cs(&mut self, dc: bool, cs: bool) -> (r: Vec<Action>)
        ensures
            r@ == frame_trace(dc, cs),
            *final(self) == (St7789 { dc: dc, cs: cs, ..*old(self) }),
    {
        let mut out: Vec<Action> = Vec::new();
        sleep(&mut out, 1);
        out.push(Action::Frame { dc, cs });
        sleep(&mut out, 1);
        self.dc = dc;
        self.cs = cs;
        assert(out@ =~= frame_trace(dc, cs));
        out
    }

    /// Write one command to the controller: byte 0 is the opcode, bytes
    /// 1.. are its parameters. The engine is drained before every framing
    /// change, a one-byte command never enters data framing, and the bus is
    /// left idle (data framing, deselected) on return.
    pub fn write_cmd(&mut self, cmd: &[u8]) -> (r: Vec<Action>)
        requires
            cmd@.len() >= 1,
        ensures
            r@ == write_cmd_trace(cmd@),
            *final(self) == (St7789 { dc: true, cs: true, ..*old(self) }),
    {
        let mut out: Vec<Action> = Vec::new();
        wait_idle(&mut out);
        let mut framing = self.set_dc_cs(false, false);
        out.append(&mut framing);
        write(&mut out, cmd[0]);

        if cmd.len() >= 2 {
            wait_idle(&mut out);
            let mut data_framing = self.set_dc_cs(true, false);
            out.append(&mut data_framing);
            let ghost prefix = out@;
            let mut i: usize = 1;
            while i < cmd.len()
                invariant
                    1 <= i <= cmd@.len(),
                    out@ == prefix + enqueue_trace(cmd@.subrange(1, i as int)),
                decreases cmd@.len() - i,
            {
                write(&mut out, cmd[i]);
                proof {
                    assert(cmd@.subrange(1, i + 1) =~= cmd@.subrange(1, i as int).push(
                        cmd@[i as int],
                    ));
                    lemma_enqueue_trace_push(cmd@.subrange(1, i as int), cmd@[i as int]);
                }
                assert(out@ =~= prefix + enqueue_trace(cmd@.subrange(1, i + 1)));
                i += 1;
            }
            proof {
                assert(cmd@.subrange(1, cmd@.len() as int) =~= cmd@.drop_first());
            }
        }

        wait_idle(&mut out);
        let mut idle_framing = self.set_dc_cs(true, true);
        out.append(&mut idle_framing);
        assert(out@ =~= write_cmd_trace(cmd@));
        out
    }

    /// Issue the memory-write command, then re-enter data framing without
    /// deselecting, so a long pixel burst can follow without a drain or
    /// framing change per byte.
    pub fn start_pixels(&mut self) -> (r: Vec<Action>)
        ensures
            r@ == start_pixels_trace(),
            *final(self) == (St7789 { dc: true, cs: false, ..*old(self) }),
    {
        let cmd: [u8; 1] = [CMD_MEMORY_WRITE];
        let mut out = self.write_cmd(&cmd);
        let mut data_framing = self.set_dc_cs(true, false);
        out.append(&mut data_framing);
        assert(out@ =~= start_pixels_trace());
        out
    }

    /// Stream the whole pixel grid: one memory-write framing, then exactly
    /// two bytes per pixel, top to bottom, left to right, with no framing
    /// change in between. The stored pixel values are deliberately not
    /// consulted: a fixed test fill is emitted in their place.
    pub fn push_framebuffer(&mut self) -> (r: Vec<Action>)
        ensures
            r@ == push_framebuffer_trace(),
            *final(self) == (St7789 { dc: true, cs: false, ..*old(self) }),
    {
        let mut out = self.start_pixels();
        let ghost prefix = out@;
        let mut col: usize = 0;
        while col < SCR_W
            invariant
                col <= SCR_W,
                out@ == prefix + pixel_trace((col * SCR_H) as nat),
            decreases SCR_W - col,
        {
            let mut row: usize = 0;
            while row < SCR_H
                invariant
                    col < SCR_W,
                    row <= SCR_H,
                    out@ == prefix + pixel_trace((col * SCR_H + row) as nat),
                decreases SCR_H - row,
            {
                write(&mut out, 0xFFu8);
                write(&mut out, 0xFFu8);
                assert(out@ =~= prefix + pixel_trace((col * SCR_H + row + 1) as nat));
                row += 1;
            }
            col += 1;
            assert(col * SCR_H == (col - 1) * SCR_H + SCR_H);
        }
        assert(out@ =~= prefix + pixel_trace((SCR_W * SCR_H) as nat));
        out
    }

    /// Run the whole initialization sequence: the nine controller commands
    /// in order with their mandated delays, then a full framebuffer push and
    /// the backlight. The driver is ready to display on return.
    pub fn init(&mut self) -> (r: Vec<Action>)
        ensures
            r@ == init_trace(),
            *final(self) == (
                St7789 { dc: true, cs: false, backlight: true, ..*old(self) }
            ),
    {
        let soft_reset: [u8; 1] = [CMD_SOFT_RESET];
        let mut out = self.write_cmd(&soft_reset);
        sleep(&mut out, 100000);

        let sleep_out: [u8; 1] = [CMD_SLEEP_OUT];
        let mut t = self.write_cmd(&sleep_out);
        out.append(&mut t);
        sleep(&mut out, 50000);

        let color_mode: [u8; 2] = [CMD_COLOR_MODE, COLOR_MODE_16BIT];
        let mut t = self.write_cmd(&color_mode);
        out.append(&mut t);
        sleep(&mut out, 10000);

        let madctl: [u8; 2] = [CMD_MEMORY_ACCESS_CTRL, 0u8];
        let mut t = self.write_cmd(&madctl);
        out.append(&mut t);

        let column_window = addr_window_bytes(CMD_COLUMN_WINDOW, SCR_W as u16);
        let mut t = self.write_cmd(column_window.as_slice());
        out.append(&mut t);

        let row_window = addr_window_bytes(CMD_ROW_WINDOW, SCR_H as u16);
        let mut t = self.write_cmd(row_window.as_slice());
        out.append(&mut t);

        let invert_on: [u8; 1] = [CMD_INVERT_ON];
        let mut t = self.write_cmd(&invert_on);
        out.append(&mut t);
        sleep(&mut out, 10000);

        let normal_mode: [u8; 1] = [CMD_NORMAL_MODE];
        let mut t = self.write_cmd(&normal_mode);
        out.append(&mut t);
        sleep(&mut out, 10000);

        let display_on: [u8; 1] = [CMD_DISPLAY_ON];
        let mut t = self.write_cmd(&display_on);
        out.append(&mut t);
        sleep(&mut out, 10000);

        let mut t = self.push_framebuffer();
        out.append(&mut t);

        let mut t = self.backlight_on();
        out.append(&mut t);

        assert(out@ =~= init_trace());
        out
    }
}

} // verus!
