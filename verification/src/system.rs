//! The cartridge image parser: validates the 16-byte header and extracts the
//! program and character ROM images.
//!
//! A cartridge image starts with a 4-byte magic (`4E 45 53 1A`), the program
//! ROM bank count in byte 4 (16 KiB per bank) and the character ROM bank
//! count in byte 5 (8 KiB per bank); the ROM data follows the header. Any
//! header mismatch is a format error reported to the caller, never to the
//! CPU core.

use vstd::prelude::*;

verus! {

/// A cartridge image as read from disk: its byte count and its bytes.
pub enum Ines {
    Data(usize, Vec<u8>),
}

/// Why a cartridge image was rejected.
#[derive(Debug, PartialEq, Eq)]
pub enum FormatError {
    /// The image does not start with the 4-byte magic.
    BadMagic,
    /// The image is shorter than its header, or than the ROM sizes the
    /// header declares.
    Truncated,
    /// The header declares more ROM than the flat memory layout can hold.
    Oversize,
}

/// The bytes of a cartridge image.
pub open spec fn ines_bytes(ines: Ines) -> Seq<u8> {
    match ines {
        Ines::Data(_, buffer) => buffer@,
    }
}

/// The image starts with the magic bytes `4E 45 53 1A`.
pub open spec fn magic_ok(b: Seq<u8>) -> bool
    recommends
        b.len() >= 4,
{
    b[0] == 0x4e && b[1] == 0x45 && b[2] == 0x53 && b[3] == 0x1a
}

/// The program ROM size the header declares: byte 4 counts 16 KiB banks.
pub open spec fn prg_size(b: Seq<u8>) -> int
    recommends
        b.len() >= 16,
{
    b[4] as int * 0x4000
}

/// The character ROM size the header declares: byte 5 counts 8 KiB banks.
pub open spec fn chr_size(b: Seq<u8>) -> int
    recommends
        b.len() >= 16,
{
    b[5] as int * 0x2000
}

/// The declared ROM images fit the flat memory layout.
pub open spec fn sizes_ok(b: Seq<u8>) -> bool
    recommends
        b.len() >= 16,
{
    prg_size(b) <= 0x8000 && chr_size(b) <= 0x2000
}

/// The image holds all the ROM bytes the header declares.
pub open spec fn data_complete(b: Seq<u8>) -> bool
    recommends
        b.len() >= 16,
{
    16 + prg_size(b) + chr_size(b) <= b.len()
}

/// A well-formed cartridge image: long enough for its header, the magic in
/// place, the declared sizes within the flat layout, and all declared data
/// present.
pub open spec fn cassette_ok(b: Seq<u8>) -> bool {
    b.len() >= 16 && magic_ok(b) && sizes_ok(b) && data_complete(b)
}

/// Validates a cartridge image's header, reporting exactly why a malformed
/// one is rejected.
pub fn header_process(ines: &Ines) -> (r: Result<(), FormatError>)
    ensures
        r == Ok::<(), FormatError>(()) <==> cassette_ok(ines_bytes(*ines)),
        ({
            let b = ines_bytes(*ines);
            match r {
                Ok(()) => cassette_ok(b),
                Err(FormatError::BadMagic) => b.len() >= 16 && !magic_ok(b),
                Err(FormatError::Oversize) => b.len() >= 16 && magic_ok(b) && !sizes_ok(b),
                Err(FormatError::Truncated) => b.len() < 16 || (magic_ok(b) && sizes_ok(b)
                    && !data_complete(b)),
            }
        }),
{
    let Ines::Data(_file, buffer) = ines;
    if buffer.len() < 16 {
        return Err(FormatError::Truncated);
    }
    if !(buffer[0] == 0x4e && buffer[1] == 0x45 && buffer[2] == 0x53 && buffer[3] == 0x1a) {
        return Err(FormatError::BadMagic);
    }
    let prg_bytes: usize = buffer[4] as usize * 0x4000;
    let chr_bytes: usize = buffer[5] as usize * 0x2000;
    if prg_bytes > 0x8000 || chr_bytes > 0x2000 {
        return Err(FormatError::Oversize);
    }
    if buffer.len() < 16 + prg_bytes + chr_bytes {
        return Err(FormatError::Truncated);
    }
    Ok(())
}

/// Parses a cartridge image: after validating the header, hands back the
/// program ROM and character ROM images, extracted from byte offset 16 in
/// that order, each exactly the size its header byte declares.
pub fn load_cassette(ines: Ines) -> (r: Result<(Vec<u8>, Vec<u8>), FormatError>)
    ensures
        ({
            let b = ines_bytes(ines);
            match r {
                Ok((prg, chr)) => cassette_ok(b) && prg@ == b.subrange(16, 16 + prg_size(b))
                    && chr@ == b.subrange(16 + prg_size(b), 16 + prg_size(b) + chr_size(b)),
                Err(e) => !cassette_ok(b) && Err::<(), FormatError>(e) == header_result(b),
            }
        }),
{
    match header_process(&ines) {
        Ok(()) => {},
        Err(e) => {
            proof {
                lemma_header_result(ines_bytes(ines), Err(e));
            }
            return Err(e);
        },
    }
    proof {
        lemma_header_result(ines_bytes(ines), Ok(()));
    }
    let Ines::Data(_file, buffer) = ines;
    let prg_bytes: usize = buffer[4] as usize * 0x4000;
    let chr_bytes: usize = buffer[5] as usize * 0x2000;
    let prg_addr: usize = 16;
    let chr_addr: usize = prg_addr + prg_bytes;
    let mut prg_rom: Vec<u8> = Vec::new();
    let mut addr: usize = 0;
    while addr < prg_bytes
        invariant
            addr <= prg_bytes,
            prg_addr == 16,
            prg_bytes <= 0x8000,
            chr_bytes <= 0x2000,
            buffer@.len() >= 16 + prg_bytes + chr_bytes,
            prg_rom@ =~= buffer@.subrange(16, 16 + addr as int),
        decreases prg_bytes - addr,
    {
        prg_rom.push(buffer[prg_addr + addr]);
        proof {
            assert(prg_rom@ =~= buffer@.subrange(16, 16 + (addr + 1) as int));
        }
        addr = addr + 1;
    }
    let mut chr_rom: Vec<u8> = Vec::new();
    let mut addr2: usize = 0;
    while addr2 < chr_bytes
        invariant
            addr2 <= chr_bytes,
            prg_bytes <= 0x8000,
            chr_bytes <= 0x2000,
            buffer@.len() >= 16 + prg_bytes + chr_bytes,
            chr_addr == 16 + prg_bytes,
            chr_rom@ =~= buffer@.subrange(16 + prg_bytes as int, 16 + prg_bytes as int
                + addr2 as int),
        decreases chr_bytes - addr2,
    {
        chr_rom.push(buffer[chr_addr + addr2]);
        proof {
            assert(chr_rom@ =~= buffer@.subrange(16 + prg_bytes as int, 16 + prg_bytes as int
                + (addr2 + 1) as int));
        }
        addr2 = addr2 + 1;
    }
    Ok((prg_rom, chr_rom))
}

/// What header validation decides for an image's bytes.
pub open spec fn header_result(b: Seq<u8>) -> Result<(), FormatError> {
    if b.len() < 16 {
        Err(FormatError::Truncated)
    } else if !magic_ok(b) {
        Err(FormatError::BadMagic)
    } else if !sizes_ok(b) {
        Err(FormatError::Oversize)
    } else if !data_complete(b) {
        Err(FormatError::Truncated)
    } else {
        Ok(())
    }
}

/// `header_process`'s outcome is exactly `header_result`: validation is
/// deterministic, and each rejection reason names the first header fault.
pub proof fn lemma_header_result(b: Seq<u8>, r: Result<(), FormatError>)
    requires
        r == Ok::<(), FormatError>(()) <==> cassette_ok(b),
        ({
            match r {
                Ok(()) => cassette_ok(b),
                Err(FormatError::BadMagic) => b.len() >= 16 && !magic_ok(b),
                Err(FormatError::Oversize) => b.len() >= 16 && magic_ok(b) && !sizes_ok(b),
                Err(FormatError::Truncated) => b.len() < 16 || (magic_ok(b) && sizes_ok(b)
                    && !data_complete(b)),
            }
        }),
    ensures
        r == header_result(b),
{
}

} // verus!
