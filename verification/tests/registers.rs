use nes_core::cpu::Cpu;
use nes_core::machine::Machine;

#[test]
fn lib_cpu_register() {
    let module = Cpu::new();
    assert_eq!(module.a, 0);
    assert_eq!(module.x, 0);
    assert_eq!(module.y, 0);
    assert_eq!(module.pc, 0);
    assert_eq!(module.sp, 0xfd);
    assert_eq!(module.p, 0x20);
}

#[test]
fn main_cpu_register() {
    let module = Cpu::new();
    assert_eq!(module.a, 0);
    assert_eq!(module.x, 0);
    assert_eq!(module.y, 0);
    assert_eq!(module.pc, 0);
    assert_eq!(module.sp, 0xfd);
    assert_eq!(module.p, 0x20);
}

#[test]
fn stack_and_pop() {
    let mut cpu = Cpu::new();
    let mut machine = Machine::new();

    assert_eq!(cpu.pop_stack(&mut machine), 0);
    cpu.push_stack(&mut machine, 0x7b);
    assert_eq!(cpu.pop_stack(&mut machine), 0x7b);
}

#[test]
fn stack_round_trip_restores_pointer() {
    let mut cpu = Cpu::new();
    let mut machine = Machine::new();

    assert_eq!(cpu.sp, 0xfd);
    cpu.push_stack(&mut machine, 0x7b);
    assert_eq!(cpu.sp, 0xfc);
    assert_eq!(cpu.pop_stack(&mut machine), 0x7b);
    assert_eq!(cpu.sp, 0xfd);
}

#[test]
fn stack_pointer_wraps_past_zero() {
    let mut cpu = Cpu::new();
    let mut machine = Machine::new();

    cpu.sp = 0x00;
    cpu.push_stack(&mut machine, 0x42);
    assert_eq!(cpu.sp, 0xff);
    assert_eq!(cpu.pop_stack(&mut machine), 0x42);
    assert_eq!(cpu.sp, 0x00);
}

#[test]
fn flag_bit5_survives_every_mutation() {
    let mut cpu = Cpu::new();
    assert_eq!(cpu.p & 0x20, 0x20);
    cpu.set_c_flag(true);
    assert_eq!(cpu.p & 0x20, 0x20);
    cpu.set_z_flag(true);
    assert_eq!(cpu.p & 0x20, 0x20);
    cpu.set_i_flag(true);
    assert_eq!(cpu.p & 0x20, 0x20);
    cpu.set_d_flag(true);
    assert_eq!(cpu.p & 0x20, 0x20);
    cpu.set_b_flag(true);
    assert_eq!(cpu.p & 0x20, 0x20);
    cpu.set_v_flag(true);
    assert_eq!(cpu.p & 0x20, 0x20);
    cpu.set_n_flag(true);
    assert_eq!(cpu.p & 0x20, 0x20);
    cpu.set_c_flag(false);
    cpu.set_z_flag(false);
    cpu.set_i_flag(false);
    cpu.set_d_flag(false);
    cpu.set_b_flag(false);
    cpu.set_v_flag(false);
    cpu.set_n_flag(false);
    assert_eq!(cpu.p, 0x20);
}

#[test]
fn flag_readers_report_set_bits() {
    let mut cpu = Cpu::new();
    assert_eq!(cpu.read_c_flag(), 0);
    assert_eq!(cpu.read_z_flag(), 0);
    assert_eq!(cpu.read_i_flag(), 0);
    assert_eq!(cpu.read_d_flag(), 0);
    assert_eq!(cpu.read_b_flag(), 0);
    assert_eq!(cpu.read_v_flag(), 0);
    assert_eq!(cpu.read_n_flag(), 0);
    cpu.set_c_flag(true);
    cpu.set_n_flag(true);
    assert_eq!(cpu.read_c_flag(), 0x01);
    assert_eq!(cpu.read_n_flag(), 0x80);
    assert_eq!(cpu.read_z_flag(), 0);
}
