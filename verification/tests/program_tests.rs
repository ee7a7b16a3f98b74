use st7789_pio::program::{compile_shift_program, engine_config};

#[test]
fn shift_program_encoding() {
    let p = compile_shift_program();
    assert_eq!(p.code, vec![0x6001u16, 0xB042u16]);
    assert_eq!(p.wrap_target, 0);
    assert_eq!(p.wrap_source, 1);
    assert_eq!(p.side_set_bits, 1);
    assert!(!p.side_set_optional);
    assert!(!p.side_set_pindirs);
}

#[test]
fn shift_program_matches_assembler() {
    // The same program, built with the assembler the way a hand-written
    // firmware would: the compiled code must agree instruction for
    // instruction.
    let side_set = pio::SideSet::new(false, 1, false);
    let mut a = pio::Assembler::<32>::new_with_side_set(side_set);
    let mut wrap_target = a.label();
    let mut wrap_source = a.label();
    a.bind(&mut wrap_target);
    a.out_with_side_set(pio::OutDestination::PINS, 1, 0);
    a.nop_with_side_set(1);
    a.bind(&mut wrap_source);
    let assembled = a.assemble_with_wrap(wrap_source, wrap_target);

    let p = compile_shift_program();
    assert_eq!(p.code.as_slice(), assembled.code.as_slice());
    assert_eq!(p.wrap_target, assembled.wrap.target);
    assert_eq!(p.wrap_source, assembled.wrap.source);
    assert_eq!(p.side_set_bits, assembled.side_set.bits());
    assert_eq!(p.side_set_optional, assembled.side_set.optional());
    assert_eq!(p.side_set_pindirs, assembled.side_set.pindirs());
}

#[test]
fn engine_config_values() {
    let c = engine_config(21, 20);
    assert_eq!(c.out_pin_base, 21);
    assert_eq!(c.out_pin_count, 1);
    assert_eq!(c.side_set_pin_base, 20);
    assert!(c.only_tx);
    assert!(c.shift_msb_first);
    assert!(c.autopull);
    assert_eq!(c.pull_threshold, 8);
    assert_eq!(c.clock_div_int, 1);
    assert_eq!(c.clock_div_frac, 0);
    assert_eq!(c.engine_outputs, vec![21u8, 20u8]);
}
