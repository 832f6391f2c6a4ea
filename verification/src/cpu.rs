//! The register file: accumulator, index registers, program counter, stack
//! pointer and the status byte, with the flag accessors and the stack
//! push/pop discipline.

use vstd::prelude::*;

use crate::machine::bus_read;
use crate::machine::bus_write;
use crate::machine::MachView;
use crate::machine::Machine;

verus! {

pub const FLAG_C: u8 = 0x01;
pub const FLAG_Z: u8 = 0x02;
pub const FLAG_I: u8 = 0x04;
pub const FLAG_D: u8 = 0x08;
pub const FLAG_B: u8 = 0x10;
pub const FLAG_U: u8 = 0x20;
pub const FLAG_V: u8 = 0x40;
pub const FLAG_N: u8 = 0x80;

/// The status byte with one flag bit forced on or off.
pub open spec fn set_flag(p: u8, mask: u8, on: bool) -> u8 {
    if on {
        p | mask
    } else {
        p & !mask
    }
}

/// Whether a flag bit is set in the status byte.
pub open spec fn flag_set(p: u8, mask: u8) -> bool {
    p & mask != 0
}

/// Setting or clearing any flag bit other than bit 5 leaves bit 5 as it was,
/// and forcing bit 5 on sets it.
pub proof fn lemma_flag_ops_keep_bit5(p: u8)
    by (bit_vector)
    ensures
        (p | 0x01) & 0x20 == p & 0x20,
        (p & !0x01) & 0x20 == p & 0x20,
        (p | 0x02) & 0x20 == p & 0x20,
        (p & !0x02) & 0x20 == p & 0x20,
        (p | 0x04) & 0x20 == p & 0x20,
        (p & !0x04) & 0x20 == p & 0x20,
        (p | 0x08) & 0x20 == p & 0x20,
        (p & !0x08) & 0x20 == p & 0x20,
        (p | 0x10) & 0x20 == p & 0x20,
        (p & !0x10) & 0x20 == p & 0x20,
        (p | 0x40) & 0x20 == p & 0x20,
        (p & !0x40) & 0x20 == p & 0x20,
        (p | 0x80) & 0x20 == p & 0x20,
        (p & !0x80) & 0x20 == p & 0x20,
        (p | 0x20) & 0x20 == 0x20,
        0x20u8 & 0x20 == 0x20,
{
}

/// Where in the address space the stack pointer points: the fixed stack page.
pub open spec fn stack_addr(sp: u8) -> u16 {
    (0x100 + sp as int) as u16
}

/// The stack pointer one below `sp`, with 8-bit wraparound.
pub open spec fn sp_dec(sp: u8) -> u8 {
    if sp == 0 {
        0xFF
    } else {
        (sp - 1) as u8
    }
}

/// The stack pointer one above `sp`, with 8-bit wraparound.
pub open spec fn sp_inc(sp: u8) -> u8 {
    if sp == 0xFF {
        0
    } else {
        (sp + 1) as u8
    }
}

#[derive(Debug, Copy, Clone)]
pub struct Cpu {
    /// Accumulator.
    pub a: u8,
    /// Index register X.
    pub x: u8,
    /// Index register Y.
    pub y: u8,
    /// Program counter.
    pub pc: u16,
    /// Stack pointer: an offset into the fixed stack page.
    pub sp: u8,
    /// Processor status byte, low bit to high: Carry, Zero, InterruptDisable,
    /// Decimal, Break, a bit fixed at one, Overflow, Negative.
    pub p: u8,
}

/// The register file after a push of `val`: the byte lands at the stack
/// address and the stack pointer steps down, wrapping past zero.
pub open spec fn push_spec(cpu: Cpu, m: MachView, val: u8) -> (Cpu, MachView) {
    (Cpu { sp: sp_dec(cpu.sp), ..cpu }, bus_write(m, stack_addr(cpu.sp), val))
}

/// The register file after a pop: the stack pointer steps up first, wrapping
/// past `0xFF`, and the byte at the resulting stack address comes back.
pub open spec fn pop_spec(cpu: Cpu, m: MachView) -> (Cpu, u8) {
    (Cpu { sp: sp_inc(cpu.sp), ..cpu }, bus_read(m, stack_addr(sp_inc(cpu.sp))))
}

impl Cpu {
    /// Bit 5 of the status byte is fixed at logical one.
    pub open spec fn wf(self) -> bool {
        self.p & 0x20 == 0x20
    }

    /// The register file at power-on: registers zeroed, stack pointer at the
    /// post-reset position, status byte holding only its fixed bit.
    pub fn new() -> (cpu: Cpu)
        ensures
            cpu == (Cpu { a: 0, x: 0, y: 0, pc: 0, sp: 0xFD, p: 0x20 }),
            cpu.wf(),
    {
        proof {
            lemma_flag_ops_keep_bit5(0);
        }
        Cpu { a: 0, x: 0, y: 0, pc: 0, sp: 0xFD, p: 0x20 }
    }

    /// Pushes `val`: writes it at the stack address, then steps the stack
    /// pointer down with 8-bit wraparound.
    pub fn push_stack(&mut self, machine: &mut Machine, val: u8)
        requires
            old(machine).wf(),
        ensures
            final(machine).wf(),
            (*final(self), final(machine)@) == push_spec(*old(self), old(machine)@, val),
    {
        let addr: usize = 0x100 + self.sp as usize;
        machine.write(addr, val);
        self.sp = if self.sp == 0 {
            0xFF
        } else {
            self.sp - 1
        };
    }

    /// Pops one byte: steps the stack pointer up with 8-bit wraparound, then
    /// reads the byte at the resulting stack address.
    pub fn pop_stack(&mut self, machine: &Machine) -> (r: u8)
        requires
            machine.wf(),
        ensures
            (*final(self), r) == pop_spec(*old(self), machine@),
    {
        self.sp = if self.sp == 0xFF {
            0
        } else {
            self.sp + 1
        };
        machine.read(0x100 + self.sp as usize)
    }

    pub fn read_c_flag(&self) -> (r: u8)
        ensures
            r == self.p & FLAG_C,
    {
        self.p & FLAG_C
    }

    pub fn read_z_flag(&self) -> (r: u8)
        ensures
            r == self.p & FLAG_Z,
    {
        self.p & FLAG_Z
    }

    pub fn read_i_flag(&self) -> (r: u8)
        ensures
            r == self.p & FLAG_I,
    {
        self.p & FLAG_I
    }

    pub fn read_d_flag(&self) -> (r: u8)
        ensures
            r == self.p & FLAG_D,
    {
        self.p & FLAG_D
    }

    pub fn read_b_flag(&self) -> (r: u8)
        ensures
            r == self.p & FLAG_B,
    {
        self.p & FLAG_B
    }

    pub fn read_v_flag(&self) -> (r: u8)
        ensures
            r == self.p & FLAG_V,
    {
        self.p & FLAG_V
    }

    pub fn read_n_flag(&self) -> (r: u8)
        ensures
            r == self.p & FLAG_N,
    {
        self.p & FLAG_N
    }

    pub fn set_c_flag(&mut self, stat: bool)
        ensures
            final(self).p == set_flag(old(self).p, FLAG_C, stat),
            final(self).p & 0x20 == old(self).p & 0x20,
            final(self).a == old(self).a,
            final(self).x == old(self).x,
            final(self).y == old(self).y,
            final(self).pc == old(self).pc,
            final(self).sp == old(self).sp,
    {
        proof {
            lemma_flag_ops_keep_bit5(self.p);
        }
        self.p = if stat {
            self.p | FLAG_C
        } else {
            self.p & !FLAG_C
        };
    }

    pub fn set_z_flag(&mut self, stat: bool)
        ensures
            final(self).p == set_flag(old(self).p, FLAG_Z, stat),
            final(self).p & 0x20 == old(self).p & 0x20,
            final(self).a == old(self).a,
            final(self).x == old(self).x,
            final(self).y == old(self).y,
            final(self).pc == old(self).pc,
            final(self).sp == old(self).sp,
    {
        proof {
            lemma_flag_ops_keep_bit5(self.p);
        }
        self.p = if stat {
            self.p | FLAG_Z
        } else {
            self.p & !FLAG_Z
        };
    }

    pub fn set_i_flag(&mut self, stat: bool)
        ensures
            final(self).p == set_flag(old(self).p, FLAG_I, stat),
            final(self).p & 0x20 == old(self).p & 0x20,
            final(self).a == old(self).a,
            final(self).x == old(self).x,
            final(self).y == old(self).y,
            final(self).pc == old(self).pc,
            final(self).sp == old(self).sp,
    {
        proof {
            lemma_flag_ops_keep_bit5(self.p);
        }
        self.p = if stat {
            self.p | FLAG_I
        } else {
            self.p & !FLAG_I
        };
    }

    pub fn set_d_flag(&mut self, stat: bool)
        ensures
            final(self).p == set_flag(old(self).p, FLAG_D, stat),
            final(self).p & 0x20 == old(self).p & 0x20,
            final(self).a == old(self).a,
            final(self).x == old(self).x,
            final(self).y == old(self).y,
            final(self).pc == old(self).pc,
            final(self).sp == old(self).sp,
    {
        proof {
            lemma_flag_ops_keep_bit5(self.p);
        }
        self.p = if stat {
            self.p | FLAG_D
        } else {
            self.p & !FLAG_D
        };
    }

    pub fn set_b_flag(&mut self, stat: bool)
        ensures
            final(self).p == set_flag(old(self).p, FLAG_B, stat),
            final(self).p & 0x20 == old(self).p & 0x20,
            final(self).a == old(self).a,
            final(self).x == old(self).x,
            final(self).y == old(self).y,
            final(self).pc == old(self).pc,
            final(self).sp == old(self).sp,
    {
        proof {
            lemma_flag_ops_keep_bit5(self.p);
        }
        self.p = if stat {
            self.p | FLAG_B
        } else {
            self.p & !FLAG_B
        };
    }

    pub fn set_v_flag(&mut self, stat: bool)
        ensures
            final(self).p == set_flag(old(self).p, FLAG_V, stat),
            final(self).p & 0x20 == old(self).p & 0x20,
            final(self).a == old(self).a,
            final(self).x == old(self).x,
            final(self).y == old(self).y,
            final(self).pc == old(self).pc,
            final(self).sp == old(self).sp,
    {
        proof {
            lemma_flag_ops_keep_bit5(self.p);
        }
        self.p = if stat {
            self.p | FLAG_V
        } else {
            self.p & !FLAG_V
        };
    }

    pub fn set_n_flag(&mut self, stat: bool)
        ensures
            final(self).p == set_flag(old(self).p, FLAG_N, stat),
            final(self).p & 0x20 == old(self).p & 0x20,
            final(self).a == old(self).a,
            final(self).x == old(self).x,
            final(self).y == old(self).y,
            final(self).pc == old(self).pc,
            final(self).sp == old(self).sp,
    {
        proof {
            lemma_flag_ops_keep_bit5(self.p);
        }
        self.p = if stat {
            self.p | FLAG_N
        } else {
            self.p & !FLAG_N
        };
    }
}

/// Pushing a value and then popping once returns that value, and the balanced
/// pair leaves the whole register file, the stack pointer included, exactly
/// where it started.
pub proof fn lemma_stack_round_trip(cpu: Cpu, m: MachView, val: u8)
    requires
        m.wf(),
    ensures
        ({
            let (cpu1, m1) = push_spec(cpu, m, val);
            let (cpu2, r) = pop_spec(cpu1, m1);
            r == val && cpu2 == cpu
        }),
{
    assert(sp_inc(sp_dec(cpu.sp)) == cpu.sp);
}

} // verus!
