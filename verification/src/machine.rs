//! The address bus and memory map.
//!
//! A 16-bit address resolves to one of four backing stores: 2 KiB of work RAM
//! (mirrored across `$0000..$2000`), the eight picture-unit registers
//! (mirrored across `$2000..$4000`), and up to 32 KiB of program ROM at
//! `$8000..$10000` (a smaller image is mirrored to fill the window).
//! Character ROM is owned by the bus for the picture unit's benefit and is not
//! CPU-addressable.

use vstd::prelude::*;

verus! {

pub const WRAM_SIZE: usize = 0x800;
pub const VRAM_SIZE: usize = 0x800;
pub const PRG_ROM_SIZE: usize = 0x8000;
pub const CHR_ROM_SIZE: usize = 0x2000;
pub const NAME_TABLE_SIZE: usize = 0x400;

/// Mathematical image of the bus: each backing store as a sequence of bytes,
/// plus the two-step write latch of the picture unit's address port.
#[verifier::ext_equal]
pub ghost struct MachView {
    pub wram: Seq<u8>,
    pub vram: Seq<u8>,
    pub prg_rom: Seq<u8>,
    pub chr_rom: Seq<u8>,
    pub nametable: Seq<u8>,
    pub ppu_register: Seq<u8>,
    pub prg_bytes: int,
    pub chr_bytes: int,
    pub addr_two_write: bool,
    pub addr_upper: u8,
    pub vram_addr: u16,
}

impl MachView {
    /// Every backing store has its fixed size and the declared ROM sizes fit
    /// their windows.
    pub open spec fn wf(self) -> bool {
        &&& self.wram.len() == 0x800
        &&& self.vram.len() == 0x800
        &&& self.prg_rom.len() == 0x8000
        &&& self.chr_rom.len() == 0x2000
        &&& self.nametable.len() == 0x1000
        &&& self.ppu_register.len() == 8
        &&& 0 <= self.prg_bytes <= 0x8000
        &&& 0 <= self.chr_bytes <= 0x2000
    }
}

/// What a CPU read at `addr` returns. Work RAM and the picture-unit register
/// window are mirrored; the program ROM window mirrors an image smaller than
/// 32 KiB; unmapped regions read as zero.
pub open spec fn bus_read(m: MachView, addr: u16) -> u8 {
    if addr < 0x2000 {
        m.wram[addr as int % 0x800]
    } else if addr < 0x4000 {
        m.ppu_register[(addr as int - 0x2000) % 8]
    } else if addr >= 0x8000 {
        if m.prg_bytes > 0 {
            m.prg_rom[(addr as int - 0x8000) % m.prg_bytes]
        } else {
            m.prg_rom[addr as int - 0x8000]
        }
    } else {
        0
    }
}

/// The bus after a CPU write of `val` at `addr`. Work RAM writes land in the
/// mirrored cell. Writes into the picture-unit window store the byte in the
/// mirrored register; the address port (register 6) feeds a two-step latch,
/// and the data port (register 7) also stores the byte into video RAM at the
/// latched address and advances that address. ROM and unmapped regions ignore
/// writes.
pub open spec fn bus_write(m: MachView, addr: u16, val: u8) -> MachView {
    if addr < 0x2000 {
        MachView { wram: m.wram.update(addr as int % 0x800, val), ..m }
    } else if addr < 0x4000 {
        let reg = (addr as int - 0x2000) % 8;
        if reg == 6 {
            if m.addr_two_write {
                MachView {
                    ppu_register: m.ppu_register.update(6, val),
                    vram_addr: (m.addr_upper as int * 256 + val as int) as u16,
                    addr_two_write: false,
                    ..m
                }
            } else {
                MachView {
                    ppu_register: m.ppu_register.update(6, val),
                    addr_upper: val,
                    addr_two_write: true,
                    ..m
                }
            }
        } else if reg == 7 {
            MachView {
                ppu_register: m.ppu_register.update(7, val),
                vram: m.vram.update(m.vram_addr as int % 0x800, val),
                vram_addr: ((m.vram_addr as int + 1) % 0x10000) as u16,
                ..m
            }
        } else {
            MachView { ppu_register: m.ppu_register.update(reg, val), ..m }
        }
    } else {
        m
    }
}

pub struct Machine {
    pub wram: Vec<u8>,
    pub vram: Vec<u8>,
    pub prg_rom: Vec<u8>,
    pub chr_rom: Vec<u8>,
    pub nametable: Vec<u8>,
    pub ppu_register: Vec<u8>,
    pub prg_bytes: usize,
    pub chr_bytes: usize,
    pub addr_two_write: bool,
    pub addr_upper: u8,
    pub vram_addr: u16,
}

impl View for Machine {
    type V = MachView;

    open spec fn view(&self) -> MachView {
        MachView {
            wram: self.wram@,
            vram: self.vram@,
            prg_rom: self.prg_rom@,
            chr_rom: self.chr_rom@,
            nametable: self.nametable@,
            ppu_register: self.ppu_register@,
            prg_bytes: self.prg_bytes as int,
            chr_bytes: self.chr_bytes as int,
            addr_two_write: self.addr_two_write,
            addr_upper: self.addr_upper,
            vram_addr: self.vram_addr,
        }
    }
}

impl Machine {
    pub open spec fn wf(self) -> bool {
        self@.wf()
    }

    /// The machine at power-on: every store zeroed, no cartridge loaded.
    pub fn new() -> (m: Machine)
        ensures
            m.wf(),
            m@.wram == Seq::new(0x800, |i: int| 0u8),
            m@.vram == Seq::new(0x800, |i: int| 0u8),
            m@.prg_rom == Seq::new(0x8000, |i: int| 0u8),
            m@.chr_rom == Seq::new(0x2000, |i: int| 0u8),
            m@.nametable == Seq::new(0x1000, |i: int| 0u8),
            m@.ppu_register == Seq::new(8, |i: int| 0u8),
            m@.prg_bytes == 0,
            m@.chr_bytes == 0,
            m@.addr_two_write == false,
            m@.addr_upper == 0,
            m@.vram_addr == 0,
    {
        let m = Machine {
            wram: zero_bytes(WRAM_SIZE),
            vram: zero_bytes(VRAM_SIZE),
            prg_rom: zero_bytes(PRG_ROM_SIZE),
            chr_rom: zero_bytes(CHR_ROM_SIZE),
            nametable: zero_bytes(4 * NAME_TABLE_SIZE),
            ppu_register: zero_bytes(8),
            prg_bytes: 0,
            chr_bytes: 0,
            addr_two_write: false,
            addr_upper: 0,
            vram_addr: 0,
        };
        proof {
            assert(m@.wram =~= Seq::new(0x800, |i: int| 0u8));
            assert(m@.vram =~= Seq::new(0x800, |i: int| 0u8));
            assert(m@.prg_rom =~= Seq::new(0x8000, |i: int| 0u8));
            assert(m@.chr_rom =~= Seq::new(0x2000, |i: int| 0u8));
            assert(m@.nametable =~= Seq::new(0x1000, |i: int| 0u8));
            assert(m@.ppu_register =~= Seq::new(8, |i: int| 0u8));
        }
        m
    }

    /// Loads the cartridge's program and character images. A ROM shorter than
    /// its window fills the window's front; the rest keeps its previous
    /// (zeroed) contents. The declared byte counts drive ROM mirroring.
    pub fn set_roms(&mut self, prg_rom: Vec<u8>, chr_rom: Vec<u8>)
        requires
            old(self).wf(),
            prg_rom.len() <= 0x8000,
            chr_rom.len() <= 0x2000,
        ensures
            final(self).wf(),
            final(self)@ == (MachView {
                prg_rom: load_front(old(self)@.prg_rom, prg_rom@),
                chr_rom: load_front(old(self)@.chr_rom, chr_rom@),
                prg_bytes: prg_rom@.len() as int,
                chr_bytes: chr_rom@.len() as int,
                ..old(self)@
            }),
    {
        let prg_len = prg_rom.len();
        let chr_len = chr_rom.len();
        let ghost old_prg = self.prg_rom@;
        let ghost old_chr = self.chr_rom@;
        let mut i: usize = 0;
        while i < prg_len
            invariant
                i <= prg_len,
                prg_len == prg_rom.len() <= 0x8000,
                self.prg_rom@.len() == 0x8000,
                forall|j: int| 0 <= j < i ==> self.prg_rom@[j] == prg_rom@[j],
                forall|j: int| i <= j < 0x8000 ==> self.prg_rom@[j] == old_prg[j],
                self.wram == old(self).wram,
                self.vram == old(self).vram,
                self.chr_rom == old(self).chr_rom,
                self.nametable == old(self).nametable,
                self.ppu_register == old(self).ppu_register,
                self.prg_bytes == old(self).prg_bytes,
                self.chr_bytes == old(self).chr_bytes,
                self.addr_two_write == old(self).addr_two_write,
                self.addr_upper == old(self).addr_upper,
                self.vram_addr == old(self).vram_addr,
            decreases prg_len - i,
        {
            self.prg_rom.set(i, prg_rom[i]);
            i = i + 1;
        }
        let mut k: usize = 0;
        while k < chr_len
            invariant
                k <= chr_len,
                chr_len == chr_rom.len() <= 0x2000,
                self.chr_rom@.len() == 0x2000,
                forall|j: int| 0 <= j < k ==> self.chr_rom@[j] == chr_rom@[j],
                forall|j: int| k <= j < 0x2000 ==> self.chr_rom@[j] == old_chr[j],
                self.prg_rom@ == load_front(old_prg, prg_rom@),
                self.wram == old(self).wram,
                self.vram == old(self).vram,
                self.nametable == old(self).nametable,
                self.ppu_register == old(self).ppu_register,
                self.prg_bytes == old(self).prg_bytes,
                self.chr_bytes == old(self).chr_bytes,
                self.addr_two_write == old(self).addr_two_write,
                self.addr_upper == old(self).addr_upper,
                self.vram_addr == old(self).vram_addr,
            decreases chr_len - k,
        {
            self.chr_rom.set(k, chr_rom[k]);
            k = k + 1;
        }
        proof {
            assert(self.prg_rom@ =~= load_front(old_prg, prg_rom@));
            assert(self.chr_rom@ =~= load_front(old_chr, chr_rom@));
        }
        self.prg_bytes = prg_len;
        self.chr_bytes = chr_len;
    }

    /// A CPU read over the memory map.
    pub fn read(&self, addr: usize) -> (r: u8)
        requires
            self.wf(),
            addr < 0x10000,
        ensures
            r == bus_read(self@, addr as u16),
    {
        if addr < 0x2000 {
            self.wram[addr % 0x800]
        } else if addr < 0x4000 {
            self.ppu_register[(addr - 0x2000) % 8]
        } else if addr >= 0x8000 {
            let idx = addr - 0x8000;
            if self.prg_bytes > 0 {
                self.prg_rom[idx % self.prg_bytes]
            } else {
                self.prg_rom[idx]
            }
        } else {
            0
        }
    }

    /// A CPU write over the memory map, with the picture-unit port quirks.
    pub fn write(&mut self, addr: usize, val: u8)
        requires
            old(self).wf(),
            addr < 0x10000,
        ensures
            final(self).wf(),
            final(self)@ == bus_write(old(self)@, addr as u16, val),
    {
        if addr < 0x2000 {
            self.wram.set(addr % 0x800, val);
        } else if addr < 0x4000 {
            let reg = (addr - 0x2000) % 8;
            if reg == 6 {
                if self.addr_two_write {
                    self.vram_addr = (self.addr_upper as u16) * 256 + (val as u16);
                    self.addr_two_write = false;
                } else {
                    self.addr_upper = val;
                    self.addr_two_write = true;
                }
                self.ppu_register.set(6, val);
            } else if reg == 7 {
                let vi = (self.vram_addr as usize) % 0x800;
                self.vram.set(vi, val);
                self.vram_addr = if self.vram_addr == 0xFFFF {
                    0
                } else {
                    self.vram_addr + 1
                };
                self.ppu_register.set(7, val);
            } else {
                self.ppu_register.set(reg, val);
            }
        }
    }
}

/// A write into work RAM reads back as written, and leaves every work RAM
/// cell that mirrors elsewhere as it was.
pub proof fn lemma_wram_write_read(m: MachView, a1: u16, a2: u16, v: u8)
    requires
        m.wf(),
        a1 < 0x2000,
        a2 < 0x2000,
    ensures
        bus_read(bus_write(m, a1, v), a1) == v,
        a1 as int % 0x800 != a2 as int % 0x800 ==> bus_read(bus_write(m, a1, v), a2) == bus_read(
            m,
            a2,
        ),
{
}

/// `dst` with its front replaced by `src`.
pub open spec fn load_front(dst: Seq<u8>, src: Seq<u8>) -> Seq<u8> {
    Seq::new(dst.len(), |i: int| if i < src.len() { src[i] } else { dst[i] })
}

/// A vector of `n` zero bytes.
pub fn zero_bytes(n: usize) -> (r: Vec<u8>)
    ensures
        r@ == Seq::new(n as nat, |i: int| 0u8),
{
    let mut v: Vec<u8> = Vec::new();
    let mut i: usize = 0;
    while i < n
        invariant
            i <= n,
            v@ =~= Seq::new(i as nat, |j: int| 0u8),
        decreases n - i,
    {
        v.push(0);
        proof {
            assert(v@ =~= Seq::new((i + 1) as nat, |j: int| 0u8));
        }
        i = i + 1;
    }
    v
}

} // verus!
