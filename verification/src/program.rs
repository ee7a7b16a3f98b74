//! Compiling the two-instruction sequencing program and the engine
//! configuration that binds it to the data and clock lines.

use vstd::prelude::*;

verus! {

/// A compiled sequencing program: the encoded instructions, the wrap that
/// turns them into a continuous loop, and the side-set settings they were
/// encoded under.
pub struct SeqProgram {
    /// The encoded instructions, in program order.
    pub code: Vec<u16>,
    /// Offset of the last instruction of the loop; after it the engine wraps.
    pub wrap_source: u8,
    /// Offset the engine wraps back to.
    pub wrap_target: u8,
    /// Width of the side-set field, in bits.
    pub side_set_bits: u8,
    /// Whether an instruction may leave the side-set out.
    pub side_set_optional: bool,
    /// Whether the side-set drives pin directions instead of pin levels.
    pub side_set_pindirs: bool,
}

/// How the sequencing engine is to be configured before it is started: which
/// lines it drives, its buffering and shift settings, and its clock divisor.
pub struct EngineConfig {
    /// First pin of the group the program's shift instruction writes to.
    pub out_pin_base: u8,
    /// Width of that pin group.
    pub out_pin_count: u8,
    /// First pin of the group the side-set drives.
    pub side_set_pin_base: u8,
    /// Whether both hardware buffers serve the transmit queue (no receive
    /// path).
    pub only_tx: bool,
    /// Whether the shift register shifts out to the left, so the most
    /// significant bit leaves first.
    pub shift_msb_first: bool,
    /// Whether the engine refills its shift register from the transmit queue
    /// on its own.
    pub autopull: bool,
    /// How many bits must have been shifted out before the engine refills.
    pub pull_threshold: u8,
    /// Integer part of the clock divisor.
    pub clock_div_int: u16,
    /// Fractional part (in 1/256ths) of the clock divisor.
    pub clock_div_frac: u8,
    /// The pins to declare engine-driven outputs before the engine starts.
    pub engine_outputs: Vec<u8>,
}

/// What compiling the sequencing program yields: exactly two instructions —
/// the one-bit shift with the clock side-set low (0x6001), then the no-op
/// with the clock side-set high (0xB042) — wrapped into a two-instruction
/// loop, under a one-bit, non-optional side-set that drives pin levels, not
/// pin directions.
pub open spec fn is_shift_program(p: SeqProgram) -> bool {
    &&& p.code@ == seq![0x6001u16, 0xB042u16]
    &&& p.wrap_target == 0
    &&& p.wrap_source == 1
    &&& p.side_set_bits == 1
    &&& !p.side_set_optional
    &&& !p.side_set_pindirs
}

/// What the engine configuration holds for the given data and clock lines:
/// the shift instruction drives the data line alone, the side-set the clock
/// line; transmit-only buffering; most-significant bit first; auto-refill
/// after every 8 shifted bits; full system-clock rate; and both lines
/// declared engine-driven outputs.
pub open spec fn configured_for(c: EngineConfig, data_pin: u8, clock_pin: u8) -> bool {
    &&& c.out_pin_base == data_pin
    &&& c.out_pin_count == 1
    &&& c.side_set_pin_base == clock_pin
    &&& c.only_tx
    &&& c.shift_msb_first
    &&& c.autopull
    &&& c.pull_threshold == 8
    &&& c.clock_div_int == 1
    &&& c.clock_div_frac == 0
    &&& c.engine_outputs@ == seq![data_pin, clock_pin]
}

/// Relies on `pio::Instruction::encode` for an OUT-to-PINS instruction with
/// zero delay under a one-bit, non-optional side-set: the operands encode as
/// 0b011 in the top three bits, the destination (PINS, 0b000) in bits 7..=5
/// and the shift count in the low five bits, and the side-set value lands in
/// bit 12, the top bit of the five-bit delay/side-set field.
#[verifier::external_body]
fn encode_out_pins(bit_count: u8, side: u8) -> (r: u16)
    requires
        1 <= bit_count <= 31,
        side <= 1,
    ensures
        r == (0x6000u16 | ((side as u16) << 12) | (bit_count as u16)),
{
    let instruction = pio::Instruction {
        operands: pio::InstructionOperands::OUT {
            destination: pio::OutDestination::PINS,
            bit_count,
        },
        delay: 0,
        side_set: Some(side),
    };
    instruction.encode(pio::SideSet::new(false, 1, false))
}

/// Relies on `pio::Instruction::encode` for the no-op instruction (a MOV
/// from scratch register Y to itself, as `pio::Assembler::nop` emits) with
/// zero delay under a one-bit, non-optional side-set: the operands encode as
/// 0b101 in the top three bits, Y (0b010) as destination in bits 7..=5 and
/// as source in the low three bits, and the side-set value lands in bit 12.
#[verifier::external_body]
fn encode_nop(side: u8) -> (r: u16)
    requires
        side <= 1,
    ensures
        r == (0xA042u16 | ((side as u16) << 12)),
{
    let instruction = pio::Instruction {
        operands: pio::InstructionOperands::MOV {
            destination: pio::MovDestination::Y,
            op: pio::MovOperation::None,
            source: pio::MovSource::Y,
        },
        delay: 0,
        side_set: Some(side),
    };
    instruction.encode(pio::SideSet::new(false, 1, false))
}

/// Compile the sequencing program: one instruction that shifts a single bit
/// out onto the data line while the side-set holds the clock line low, then
/// a no-op whose side-set drives the clock line high, the two wrapping into
/// a continuous loop. One clock edge thus rises once per shifted bit, after
/// the data line has settled.
pub fn compile_shift_program() -> (r: SeqProgram)
    ensures
        is_shift_program(r),
{
    let shift_out = encode_out_pins(1, 0);
    let clock_high = encode_nop(1);
    assert(0x6000u16 | ((0u8 as u16) << 12) | (1u8 as u16) == 0x6001u16) by (bit_vector);
    assert(0xA042u16 | ((1u8 as u16) << 12) == 0xB042u16) by (bit_vector);
    let mut code: Vec<u16> = Vec::new();
    code.push(shift_out);
    code.push(clock_high);
    assert(code@ =~= seq![0x6001u16, 0xB042u16]);
    SeqProgram {
        code,
        wrap_source: 1,
        wrap_target: 0,
        side_set_bits: 1,
        side_set_optional: false,
        side_set_pindirs: false,
    }
}

/// The engine configuration the driver runs the program under: the shift
/// instruction drives the data line alone, the side-set drives the clock
/// line, both buffers serve transmission, bytes leave most-significant bit
/// first, the engine refills itself from the queue after every 8 shifted
/// bits, and it runs at the full system clock (divisor 1 + 0/256), one
/// instruction per cycle. Both lines are declared engine-driven outputs.
pub fn engine_config(data_pin: u8, clock_pin: u8) -> (r: EngineConfig)
    ensures
        configured_for(r, data_pin, clock_pin),
{
    let mut engine_outputs: Vec<u8> = Vec::new();
    engine_outputs.push(data_pin);
    engine_outputs.push(clock_pin);
    assert(engine_outputs@ =~= seq![data_pin, clock_pin]);
    EngineConfig {
        out_pin_base: data_pin,
        out_pin_count: 1,
        side_set_pin_base: clock_pin,
        only_tx: true,
        shift_msb_first: true,
        autopull: true,
        pull_threshold: 8,
        clock_div_int: 1,
        clock_div_frac: 0,
        engine_outputs,
    }
}

} // verus!
