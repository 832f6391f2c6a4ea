use nes_core::system;
use nes_core::system::{header_process, FormatError, Ines};

/// A well-formed cartridge image: magic header, two 16 KiB program banks,
/// one 8 KiB character bank, data zeroed.
fn sample_image() -> Vec<u8> {
    let mut buf = vec![0u8; 16 + 0x8000 + 0x2000];
    buf[0] = 0x4e;
    buf[1] = 0x45;
    buf[2] = 0x53;
    buf[3] = 0x1a;
    buf[4] = 2;
    buf[5] = 1;
    buf
}

#[test]
fn nes_header() {
    let buf = sample_image();
    let ines = Ines::Data(buf.len(), buf);
    let result = header_process(&ines);
    assert_eq!(result, Ok(()));
}

#[test]
fn load_cassette() {
    let buf = sample_image();
    let ines = Ines::Data(buf.len(), buf);
    let result = system::load_cassette(ines);

    match result {
        Ok(_) => (),
        _ => panic!("a well-formed cassette was rejected"),
    }
}

#[test]
fn check_rom_data() {
    let prg_data = [0x78, 0xa2, 0xff, 0x9a, 0xa9, 0x00, 0x8d, 0x00, 0x20, 0x8d];
    let chr_data = [0x1c, 0x3e, 0x3e, 0x3e, 0x1c, 0x1c, 0x1c, 0x1c, 0x18, 0x3c];
    let mut buf = sample_image();
    for id in 0..10 {
        buf[16 + id] = prg_data[id];
        buf[16 + 0x8000 + 528 + id] = chr_data[id];
    }
    let ines = Ines::Data(buf.len(), buf);
    let result = system::load_cassette(ines);

    for id in 0..10 {
        match &result {
            Ok((prg_rom, chr_rom)) => {
                assert_eq!(prg_rom[id], prg_data[id]);
                assert_eq!(chr_rom[id + 528], chr_data[id]);
            }

            _ => {}
        }
    }
}

#[test]
fn extracted_rom_sizes_follow_header() {
    let buf = sample_image();
    let ines = Ines::Data(buf.len(), buf);
    let (prg, chr) = system::load_cassette(ines).unwrap();
    assert_eq!(prg.len(), 0x8000);
    assert_eq!(chr.len(), 0x2000);
}

#[test]
fn bad_magic_is_rejected() {
    let mut buf = sample_image();
    buf[0] = 0x4f;
    let ines = Ines::Data(buf.len(), buf);
    assert_eq!(header_process(&ines), Err(FormatError::BadMagic));
    let ines2 = Ines::Data(0, {
        let mut b = sample_image();
        b[3] = 0x00;
        b
    });
    assert_eq!(system::load_cassette(ines2), Err(FormatError::BadMagic));
}

#[test]
fn truncated_image_is_rejected() {
    let short = vec![0x4e, 0x45, 0x53, 0x1a];
    let ines = Ines::Data(short.len(), short);
    assert_eq!(header_process(&ines), Err(FormatError::Truncated));

    let mut cut = sample_image();
    cut.truncate(16 + 0x8000);
    let ines2 = Ines::Data(cut.len(), cut);
    assert_eq!(header_process(&ines2), Err(FormatError::Truncated));
}

#[test]
fn oversize_banks_are_rejected() {
    let mut buf = sample_image();
    buf[4] = 3;
    let ines = Ines::Data(buf.len(), buf);
    assert_eq!(header_process(&ines), Err(FormatError::Oversize));

    let mut buf2 = sample_image();
    buf2[5] = 2;
    let ines2 = Ines::Data(buf2.len(), buf2);
    assert_eq!(header_process(&ines2), Err(FormatError::Oversize));
}

#[test]
fn single_bank_image_loads_exactly() {
    let mut buf = vec![0u8; 16 + 0x4000 + 0x2000];
    buf[0] = 0x4e;
    buf[1] = 0x45;
    buf[2] = 0x53;
    buf[3] = 0x1a;
    buf[4] = 1;
    buf[5] = 1;
    buf[16] = 0xaa;
    buf[16 + 0x3fff] = 0xbb;
    buf[16 + 0x4000] = 0xcc;
    let ines = Ines::Data(buf.len(), buf);
    let (prg, chr) = system::load_cassette(ines).unwrap();
    assert_eq!(prg.len(), 0x4000);
    assert_eq!(chr.len(), 0x2000);
    assert_eq!(prg[0], 0xaa);
    assert_eq!(prg[0x3fff], 0xbb);
    assert_eq!(chr[0], 0xcc);
}
