use nes_core::machine::Machine;
use nes_core::ppu::Ppu;

#[test]
fn work_ram_is_mirrored() {
    let mut m = Machine::new();
    m.write(0x0005, 0x42);
    assert_eq!(m.read(0x0005), 0x42);
    assert_eq!(m.read(0x0805), 0x42);
    assert_eq!(m.read(0x1005), 0x42);
    assert_eq!(m.read(0x1805), 0x42);
    m.write(0x1806, 0x17);
    assert_eq!(m.read(0x0006), 0x17);
}

#[test]
fn ppu_registers_are_mirrored() {
    let mut m = Machine::new();
    m.write(0x2000, 0x99);
    assert_eq!(m.read(0x2000), 0x99);
    assert_eq!(m.read(0x2008), 0x99);
    assert_eq!(m.read(0x3ff8), 0x99);
}

#[test]
fn rom_window_mirrors_small_image() {
    let mut m = Machine::new();
    let mut prg = vec![0u8; 0x4000];
    prg[0] = 0x11;
    prg[0x3fff] = 0x22;
    m.set_roms(prg, Vec::new());
    assert_eq!(m.read(0x8000), 0x11);
    assert_eq!(m.read(0xc000), 0x11);
    assert_eq!(m.read(0xbfff), 0x22);
    assert_eq!(m.read(0xffff), 0x22);
}

#[test]
fn rom_is_read_only() {
    let mut m = Machine::new();
    let mut prg = vec![0u8; 0x8000];
    prg[0] = 0x33;
    m.set_roms(prg, Vec::new());
    m.write(0x8000, 0x44);
    assert_eq!(m.read(0x8000), 0x33);
}

#[test]
fn unmapped_region_reads_zero() {
    let mut m = Machine::new();
    m.write(0x5000, 0x77);
    assert_eq!(m.read(0x5000), 0);
}

#[test]
fn vram_port_uses_two_step_address_latch() {
    let mut m = Machine::new();
    // first write holds the address's high byte, the second its low byte
    m.write(0x2006, 0x01);
    m.write(0x2006, 0x08);
    // the data port stores through the latched address and advances it
    m.write(0x2007, 0x5a);
    m.write(0x2007, 0x5b);
    assert_eq!(m.vram[0x0108], 0x5a);
    assert_eq!(m.vram[0x0109], 0x5b);
    assert_eq!(m.ppu_register[7], 0x5b);
}

#[test]
fn ppu_new_and_fetch() {
    let p = Ppu::new();
    assert_eq!(p.vram.len(), 0x800);
    assert!(p.vram.iter().all(|b| *b == 0));
    assert_eq!(Ppu::fetch(vec![1, 2, 3]), 0);
}
