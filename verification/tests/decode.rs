use nes_core::cpu::Cpu;
use nes_core::instruction::{Addressing, Opcode};

#[test]
fn decode_covers_all_byte_values() {
    let cpu = Cpu::new();
    for code in 0..=255u8 {
        let inst = cpu.convert(code);
        assert!(inst.0 >= 1 && inst.0 <= 8);
    }
}

#[test]
fn decode_official_entries() {
    let cpu = Cpu::new();

    let lda = cpu.convert(0xa9);
    assert_eq!(lda.0, 2);
    assert!(matches!(lda.1, Opcode::LDA));
    assert!(matches!(lda.2, Addressing::Immediate));

    let sta = cpu.convert(0x8d);
    assert_eq!(sta.0, 4);
    assert!(matches!(sta.1, Opcode::STA));
    assert!(matches!(sta.2, Addressing::Absolute));

    let brk = cpu.convert(0x00);
    assert_eq!(brk.0, 7);
    assert!(matches!(brk.1, Opcode::BRK));
    assert!(matches!(brk.2, Addressing::Implied));

    let jmp = cpu.convert(0x6c);
    assert_eq!(jmp.0, 5);
    assert!(matches!(jmp.1, Opcode::JMP));
    assert!(matches!(jmp.2, Addressing::Indirect));

    let cpy = cpu.convert(0xc0);
    assert_eq!(cpy.0, 2);
    assert!(matches!(cpy.1, Opcode::CPY));
    assert!(matches!(cpy.2, Addressing::Immediate));
}

#[test]
fn decode_unofficial_entries() {
    let cpu = Cpu::new();

    let dcp = cpu.convert(0xc3);
    assert_eq!(dcp.0, 8);
    assert!(matches!(dcp.1, Opcode::DCP));
    assert!(matches!(dcp.2, Addressing::IndirectX));

    let lax = cpu.convert(0xb7);
    assert_eq!(lax.0, 4);
    assert!(matches!(lax.1, Opcode::LAX));
    assert!(matches!(lax.2, Addressing::ZeropageY));

    let ign = cpu.convert(0x0c);
    assert_eq!(ign.0, 4);
    assert!(matches!(ign.1, Opcode::IGN));
    assert!(matches!(ign.2, Addressing::Absolute));
}

#[test]
fn nop_rows_cost_two_cycles() {
    // the official NOP and the six unofficial single-byte NOPs all take the
    // canonical two cycles
    let cpu = Cpu::new();
    for code in [0xeau8, 0x1a, 0x3a, 0x5a, 0x7a, 0xda, 0xfa] {
        let inst = cpu.convert(code);
        assert_eq!(inst.0, 2);
        assert!(matches!(inst.1, Opcode::NOP));
        assert!(matches!(inst.2, Addressing::Implied));
    }
}

#[test]
fn decode_unmapped_bytes_become_noops() {
    let cpu = Cpu::new();
    for code in [0x02u8, 0x12, 0x22, 0x32, 0x42, 0x52, 0x62, 0x72, 0x92, 0x9e, 0xab, 0xeb] {
        let inst = cpu.convert(code);
        assert_eq!(inst.0, 1);
        assert!(matches!(inst.1, Opcode::NOP));
        assert!(matches!(inst.2, Addressing::Implied));
    }
}
