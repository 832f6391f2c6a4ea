use nes_core::cpu::Cpu;
use nes_core::instruction::Interrupt;
use nes_core::machine::Machine;
use nes_core::system::{load_cassette, Ines};

/// A machine whose work RAM holds `program` from address zero, and a CPU
/// whose program counter starts there.
fn with_program(program: &[u8]) -> (Cpu, Machine) {
    let mut m = Machine::new();
    for (i, b) in program.iter().enumerate() {
        m.write(i, *b);
    }
    (Cpu::new(), m)
}

#[test]
fn adc_signed_overflow_case() {
    // ADC #$50 with A=$50 and Carry clear: $A0, Carry 0, Overflow 1,
    // Negative 1, Zero 0
    let (mut cpu, mut m) = with_program(&[0x69, 0x50]);
    cpu.a = 0x50;
    let cycles = cpu.exec(&mut m);
    assert_eq!(cycles, 2);
    assert_eq!(cpu.a, 0xa0);
    assert_eq!(cpu.read_c_flag(), 0);
    assert_ne!(cpu.read_v_flag(), 0);
    assert_ne!(cpu.read_n_flag(), 0);
    assert_eq!(cpu.read_z_flag(), 0);
}

#[test]
fn adc_carry_out_case() {
    // ADC #$01 with A=$FF: result 0, Carry 1, Zero 1, no signed overflow
    let (mut cpu, mut m) = with_program(&[0x69, 0x01]);
    cpu.a = 0xff;
    cpu.exec(&mut m);
    assert_eq!(cpu.a, 0x00);
    assert_ne!(cpu.read_c_flag(), 0);
    assert_ne!(cpu.read_z_flag(), 0);
    assert_eq!(cpu.read_v_flag(), 0);
    assert_eq!(cpu.read_n_flag(), 0);
}

#[test]
fn sbc_borrow_case() {
    // SBC #$01 with A=$00 and Carry set: $FF and a borrow (Carry cleared)
    let (mut cpu, mut m) = with_program(&[0xe9, 0x01]);
    cpu.a = 0x00;
    cpu.set_c_flag(true);
    cpu.exec(&mut m);
    assert_eq!(cpu.a, 0xff);
    assert_eq!(cpu.read_c_flag(), 0);
    assert_ne!(cpu.read_n_flag(), 0);
}

#[test]
fn cmp_register_below_operand() {
    // CMP #$20 with A=$10: Carry 0, Negative 1, Zero 0
    let (mut cpu, mut m) = with_program(&[0xc9, 0x20]);
    cpu.a = 0x10;
    cpu.exec(&mut m);
    assert_eq!(cpu.read_c_flag(), 0);
    assert_ne!(cpu.read_n_flag(), 0);
    assert_eq!(cpu.read_z_flag(), 0);
}

#[test]
fn cmp_register_at_least_operand() {
    let (mut cpu, mut m) = with_program(&[0xc9, 0x10, 0xc9, 0x20]);
    cpu.a = 0x20;
    cpu.exec(&mut m);
    assert_ne!(cpu.read_c_flag(), 0);
    assert_eq!(cpu.read_z_flag(), 0);
    cpu.exec(&mut m);
    assert_ne!(cpu.read_c_flag(), 0);
    assert_ne!(cpu.read_z_flag(), 0);
}

#[test]
fn branch_taken_costs_one_extra_cycle() {
    // BEQ forward with the Zero flag set and no page crossing: 2+1 cycles
    let (mut cpu, mut m) = with_program(&[0xf0, 0x05]);
    cpu.set_z_flag(true);
    let cycles = cpu.exec(&mut m);
    assert_eq!(cycles, 3);
    assert_eq!(cpu.pc, 0x0007);
}

#[test]
fn branch_across_page_costs_two_extra_cycles() {
    // BEQ at $00FA: the following instruction sits at $00FC, the target at
    // $010C on the next page: 2+2 cycles
    let mut m = Machine::new();
    m.write(0x00fa, 0xf0);
    m.write(0x00fb, 0x10);
    let mut cpu = Cpu::new();
    cpu.pc = 0x00fa;
    cpu.set_z_flag(true);
    let cycles = cpu.exec(&mut m);
    assert_eq!(cycles, 4);
    assert_eq!(cpu.pc, 0x010c);
}

#[test]
fn branch_not_taken_costs_base_cycles() {
    let (mut cpu, mut m) = with_program(&[0xf0, 0x05]);
    let cycles = cpu.exec(&mut m);
    assert_eq!(cycles, 2);
    assert_eq!(cpu.pc, 0x0002);
}

#[test]
fn backward_branch_wraps_displacement() {
    // BNE backward: displacement $FB is -5
    let mut m = Machine::new();
    m.write(0x0010, 0xd0);
    m.write(0x0011, 0xfb);
    let mut cpu = Cpu::new();
    cpu.pc = 0x0010;
    cpu.exec(&mut m);
    assert_eq!(cpu.pc, 0x000d);
}

#[test]
fn jsr_rts_round_trip_restores_flow() {
    // JSR $0010 from $0000, an RTS at $0010
    let (mut cpu, mut m) = with_program(&[0x20, 0x10, 0x00]);
    m.write(0x0010, 0x60);
    let sp0 = cpu.sp;
    let cycles = cpu.exec(&mut m);
    assert_eq!(cycles, 6);
    assert_eq!(cpu.pc, 0x0010);
    assert_eq!(cpu.sp, sp0.wrapping_sub(2));
    let cycles2 = cpu.exec(&mut m);
    assert_eq!(cycles2, 6);
    assert_eq!(cpu.pc, 0x0003);
    assert_eq!(cpu.sp, sp0);
}

#[test]
fn loads_and_stores_move_bytes() {
    // LDA #$7F, STA $42, LDX $42, INX, STX $0200
    let (mut cpu, mut m) = with_program(&[
        0xa9, 0x7f, 0x85, 0x42, 0xa6, 0x42, 0xe8, 0x8e, 0x00, 0x02,
    ]);
    cpu.exec(&mut m);
    assert_eq!(cpu.a, 0x7f);
    cpu.exec(&mut m);
    assert_eq!(m.read(0x42), 0x7f);
    cpu.exec(&mut m);
    assert_eq!(cpu.x, 0x7f);
    cpu.exec(&mut m);
    assert_eq!(cpu.x, 0x80);
    assert_ne!(cpu.read_n_flag(), 0);
    cpu.exec(&mut m);
    assert_eq!(m.read(0x0200), 0x80);
}

#[test]
fn shifts_and_rotates_move_carry() {
    // SEC, ROL A with A=$80: Carry in fills bit 0, bit 7 falls into Carry
    let (mut cpu, mut m) = with_program(&[0x38, 0x2a, 0x6a]);
    cpu.a = 0x80;
    cpu.exec(&mut m);
    cpu.exec(&mut m);
    assert_eq!(cpu.a, 0x01);
    assert_ne!(cpu.read_c_flag(), 0);
    // ROR A: Carry fills bit 7, bit 0 falls into Carry
    cpu.exec(&mut m);
    assert_eq!(cpu.a, 0x80);
    assert_ne!(cpu.read_c_flag(), 0);
}

#[test]
fn asl_memory_writes_back() {
    // ASL $10 with $10 holding $C1
    let (mut cpu, mut m) = with_program(&[0x06, 0x10]);
    m.write(0x0010, 0xc1);
    let cycles = cpu.exec(&mut m);
    assert_eq!(cycles, 5);
    assert_eq!(m.read(0x0010), 0x82);
    assert_ne!(cpu.read_c_flag(), 0);
    assert_ne!(cpu.read_n_flag(), 0);
}

#[test]
fn indexed_read_pays_page_cross_penalty() {
    // LDA $00FF,X with X=$01 crosses into the next page: 4+1 cycles
    let (mut cpu, mut m) = with_program(&[0xbd, 0xff, 0x00]);
    m.write(0x0100, 0x5d);
    cpu.x = 0x01;
    let cycles = cpu.exec(&mut m);
    assert_eq!(cycles, 5);
    assert_eq!(cpu.a, 0x5d);
}

#[test]
fn indexed_write_pays_no_page_cross_penalty() {
    // STA $00FF,X with X=$01: always the flat 5 cycles
    let (mut cpu, mut m) = with_program(&[0x9d, 0xff, 0x00]);
    cpu.a = 0x99;
    cpu.x = 0x01;
    let cycles = cpu.exec(&mut m);
    assert_eq!(cycles, 5);
    assert_eq!(m.read(0x0100), 0x99);
}

#[test]
fn indirect_jump_honours_page_wrap_quirk() {
    // JMP ($02FF): the pointer's high byte comes from $0200, not $0300
    let (mut cpu, mut m) = with_program(&[0x6c, 0xff, 0x02]);
    m.write(0x02ff, 0x34);
    m.write(0x0300, 0xff);
    m.write(0x0200, 0x12);
    cpu.exec(&mut m);
    assert_eq!(cpu.pc, 0x1234);
}

#[test]
fn indirect_indexed_addressing_reads_through_pointer() {
    // LDA ($20),Y with Y=$04 and the pointer at $20 holding $0300
    let (mut cpu, mut m) = with_program(&[0xb1, 0x20]);
    m.write(0x0020, 0x00);
    m.write(0x0021, 0x03);
    m.write(0x0304, 0x6e);
    cpu.y = 0x04;
    cpu.exec(&mut m);
    assert_eq!(cpu.a, 0x6e);
}

#[test]
fn unofficial_lax_loads_both_registers() {
    let (mut cpu, mut m) = with_program(&[0xa7, 0x10]);
    m.write(0x0010, 0xf2);
    cpu.exec(&mut m);
    assert_eq!(cpu.a, 0xf2);
    assert_eq!(cpu.x, 0xf2);
    assert_ne!(cpu.read_n_flag(), 0);
}

#[test]
fn unofficial_sax_stores_masked_accumulator() {
    let (mut cpu, mut m) = with_program(&[0x87, 0x10]);
    cpu.a = 0xf0;
    cpu.x = 0x3c;
    cpu.exec(&mut m);
    assert_eq!(m.read(0x0010), 0x30);
}

#[test]
fn unofficial_dcp_decrements_then_compares() {
    // DCP $10 with $10 holding $11 and A=$10: memory drops to $10, compare
    // sets Zero and Carry
    let (mut cpu, mut m) = with_program(&[0xc7, 0x10]);
    m.write(0x0010, 0x11);
    cpu.a = 0x10;
    cpu.exec(&mut m);
    assert_eq!(m.read(0x0010), 0x10);
    assert_ne!(cpu.read_z_flag(), 0);
    assert_ne!(cpu.read_c_flag(), 0);
}

#[test]
fn brk_pushes_state_and_takes_vector() {
    let mut m = Machine::new();
    let mut prg = vec![0u8; 0x8000];
    prg[0x7ffe] = 0x34;
    prg[0x7fff] = 0x12;
    m.set_roms(prg, Vec::new());
    let mut cpu = Cpu::new();
    cpu.pc = 0x0040;
    let sp0 = cpu.sp;
    cpu.exec(&mut m);
    assert_eq!(cpu.pc, 0x1234);
    assert_eq!(cpu.sp, sp0.wrapping_sub(3));
    assert_ne!(cpu.read_i_flag(), 0);
    assert_ne!(cpu.read_b_flag(), 0);
    // the pushed return address skips BRK's padding byte
    assert_eq!(m.read(0x0100 + sp0 as usize), 0x00);
    assert_eq!(m.read(0x0100 + sp0 as usize - 1), 0x42);
}

#[test]
fn reset_loads_vector_without_stack_use() {
    let mut m = Machine::new();
    let mut prg = vec![0u8; 0x8000];
    prg[0x7ffc] = 0x00;
    prg[0x7ffd] = 0x80;
    m.set_roms(prg, Vec::new());
    let mut cpu = Cpu::new();
    let sp0 = cpu.sp;
    cpu.interrupt(&mut m, Interrupt::RESET);
    assert_eq!(cpu.pc, 0x8000);
    assert_eq!(cpu.sp, sp0);
    assert_ne!(cpu.read_i_flag(), 0);
}

#[test]
fn nmi_pushes_and_redirects() {
    let mut m = Machine::new();
    let mut prg = vec![0u8; 0x8000];
    prg[0x7ffa] = 0x21;
    prg[0x7ffb] = 0x43;
    m.set_roms(prg, Vec::new());
    let mut cpu = Cpu::new();
    cpu.pc = 0xabcd;
    let sp0 = cpu.sp;
    cpu.interrupt(&mut m, Interrupt::NMI);
    assert_eq!(cpu.pc, 0x4321);
    assert_eq!(cpu.sp, sp0.wrapping_sub(3));
    assert_eq!(m.read(0x0100 + sp0 as usize), 0xab);
    assert_eq!(m.read(0x0100 + sp0 as usize - 1), 0xcd);
    assert_ne!(cpu.read_i_flag(), 0);
}

#[test]
fn irq_proceeds_while_interrupts_enabled() {
    let mut m = Machine::new();
    let mut prg = vec![0u8; 0x8000];
    prg[0x7ffe] = 0x78;
    prg[0x7fff] = 0x56;
    m.set_roms(prg, Vec::new());
    let mut cpu = Cpu::new();
    cpu.pc = 0x1357;
    let sp0 = cpu.sp;
    cpu.interrupt(&mut m, Interrupt::IRQ);
    assert_eq!(cpu.pc, 0x5678);
    assert_eq!(cpu.sp, sp0.wrapping_sub(3));
    assert_eq!(m.read(0x0100 + sp0 as usize), 0x13);
    assert_eq!(m.read(0x0100 + sp0 as usize - 1), 0x57);
    assert_ne!(cpu.read_i_flag(), 0);
}

#[test]
fn irq_is_masked_by_interrupt_disable() {
    let mut m = Machine::new();
    let mut cpu = Cpu::new();
    cpu.set_i_flag(true);
    cpu.pc = 0x4444;
    let sp0 = cpu.sp;
    cpu.interrupt(&mut m, Interrupt::IRQ);
    assert_eq!(cpu.pc, 0x4444);
    assert_eq!(cpu.sp, sp0);
}

#[test]
fn rti_restores_status_and_counter() {
    // NMI from $BEEF, then an RTI at the handler
    let mut m = Machine::new();
    let mut prg = vec![0u8; 0x8000];
    prg[0x7ffa] = 0x00;
    prg[0x7ffb] = 0x90;
    prg[0x1000] = 0x40;
    m.set_roms(prg, Vec::new());
    let mut cpu = Cpu::new();
    cpu.pc = 0xbeef;
    cpu.set_c_flag(true);
    let p0 = cpu.p;
    cpu.interrupt(&mut m, Interrupt::NMI);
    assert_eq!(cpu.pc, 0x9000);
    cpu.exec(&mut m);
    assert_eq!(cpu.pc, 0xbeef);
    assert_eq!(cpu.p, p0);
}

#[test]
fn cassette_program_runs_from_reset() {
    // a cartridge whose program starts SEI, LDX #$FF, TXS
    let mut buf = vec![0u8; 16 + 0x8000 + 0x2000];
    buf[0] = 0x4e;
    buf[1] = 0x45;
    buf[2] = 0x53;
    buf[3] = 0x1a;
    buf[4] = 2;
    buf[5] = 1;
    buf[16] = 0x78;
    buf[17] = 0xa2;
    buf[18] = 0xff;
    buf[19] = 0x9a;
    // the reset vector points at $8000
    buf[16 + 0x7ffc] = 0x00;
    buf[16 + 0x7ffd] = 0x80;
    let ines = Ines::Data(buf.len(), buf);
    let (prg, chr) = load_cassette(ines).unwrap();
    let mut m = Machine::new();
    m.set_roms(prg, chr);
    let mut cpu = Cpu::new();
    cpu.interrupt(&mut m, Interrupt::RESET);
    assert_eq!(cpu.pc, 0x8000);
    cpu.exec(&mut m);
    assert_ne!(cpu.read_i_flag(), 0);
    cpu.exec(&mut m);
    assert_eq!(cpu.x, 0xff);
    cpu.exec(&mut m);
    assert_eq!(cpu.sp, 0xff);
    assert_eq!(cpu.pc, 0x8004);
}

#[test]
fn php_plp_round_trip_keeps_bit5() {
    // PHP, PLP after clearing every clearable flag
    let (mut cpu, mut m) = with_program(&[0x08, 0x28]);
    cpu.set_c_flag(true);
    cpu.set_n_flag(true);
    let p0 = cpu.p;
    cpu.exec(&mut m);
    cpu.set_c_flag(false);
    cpu.set_n_flag(false);
    cpu.exec(&mut m);
    assert_eq!(cpu.p, p0);
    assert_eq!(cpu.p & 0x20, 0x20);
}

#[test]
fn inc_dec_wrap_at_byte_bounds() {
    // INC $10 with $FF wraps to $00 and sets Zero; DEC $11 with $00 wraps to
    // $FF and sets Negative
    let (mut cpu, mut m) = with_program(&[0xe6, 0x10, 0xc6, 0x11]);
    m.write(0x0010, 0xff);
    m.write(0x0011, 0x00);
    cpu.exec(&mut m);
    assert_eq!(m.read(0x0010), 0x00);
    assert_ne!(cpu.read_z_flag(), 0);
    cpu.exec(&mut m);
    assert_eq!(m.read(0x0011), 0xff);
    assert_ne!(cpu.read_n_flag(), 0);
}

#[test]
fn unmapped_opcode_is_a_one_cycle_noop() {
    let (mut cpu, mut m) = with_program(&[0x02]);
    let before = cpu;
    let cycles = cpu.exec(&mut m);
    assert_eq!(cycles, 1);
    assert_eq!(cpu.pc, 0x0001);
    assert_eq!(cpu.a, before.a);
    assert_eq!(cpu.p, before.p);
    assert_eq!(cpu.sp, before.sp);
}

#[test]
fn bit_test_copies_high_bits() {
    // BIT $10 with $10 holding $C0 and A=$0F: Negative 1, Overflow 1, Zero 1
    let (mut cpu, mut m) = with_program(&[0x24, 0x10]);
    m.write(0x0010, 0xc0);
    cpu.a = 0x0f;
    cpu.exec(&mut m);
    assert_ne!(cpu.read_n_flag(), 0);
    assert_ne!(cpu.read_v_flag(), 0);
    assert_ne!(cpu.read_z_flag(), 0);
}
