//! The picture unit's own storage. Rendering is out of the CPU core's
//! scope: the unit only owns its video RAM here, and its pattern fetch is a
//! placeholder that consumes no state.

use vstd::prelude::*;

use crate::machine::zero_bytes;

verus! {

pub const VRAM_SIZE: usize = 0x800;

pub struct Ppu {
    pub vram: Vec<u8>,
}

impl Ppu {
    /// The picture unit at power-on: video RAM zeroed.
    pub fn new() -> (r: Ppu)
        ensures
            r.vram@ == Seq::new(0x800, |i: int| 0u8),
    {
        Ppu { vram: zero_bytes(VRAM_SIZE) }
    }

    /// The pattern fetch: a placeholder that always returns zero.
    pub fn fetch(chr_rom: Vec<u8>) -> (r: u8)
        ensures
            r == 0,
    {
        let _ = chr_rom;
        0
    }
}

} // verus!
