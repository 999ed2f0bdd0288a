use vibegb_core::rom::MIN_ROM_SIZE;
use vibegb_core::{CgbMode, HeaderError, Rom, RomError, RomHeader};

const NINTENDO_LOGO: [u8; 48] = [
    0xCE, 0xED, 0x66, 0x66, 0xCC, 0x0D, 0x00, 0x0B, 0x03, 0x73, 0x00, 0x83, 0x00, 0x0C, 0x00, 0x0D,
    0x00, 0x08, 0x11, 0x1F, 0x88, 0x89, 0x00, 0x0E, 0xDC, 0xCC, 0x6E, 0xE6, 0xDD, 0xDD, 0xD9, 0x99,
    0xBB, 0xBB, 0x67, 0x63, 0x6E, 0x0E, 0xEC, 0xCC, 0xDD, 0xDC, 0x99, 0x9F, 0xBB, 0xB9, 0x33, 0x3E,
];

fn calculate_header_checksum(data: &[u8]) -> u8 {
    let mut checksum = 0u8;
    for byte in &data[0x134..=0x14C] {
        checksum = checksum.wrapping_sub(*byte).wrapping_sub(1);
    }
    checksum
}

fn make_test_rom() -> Vec<u8> {
    let mut rom = vec![0; 0x8000];
    rom[0x104..0x134].copy_from_slice(&NINTENDO_LOGO);

    let title = b"VIBEGB TEST";
    rom[0x134..0x134 + title.len()].copy_from_slice(title);
    rom[0x143] = 0x80;
    rom[0x144] = b'0';
    rom[0x145] = b'1';
    rom[0x146] = 0x03;
    rom[0x147] = 0x01;
    rom[0x148] = 0x00;
    rom[0x149] = 0x02;
    rom[0x14A] = 0x01;
    rom[0x14B] = 0x33;
    rom[0x14C] = 0x00;
    rom[0x14D] = calculate_header_checksum(&rom);
    rom[0x14E] = 0x12;
    rom[0x14F] = 0x34;
    rom
}

#[test]
fn parses_valid_header_metadata() {
    let rom = make_test_rom();
    let header = RomHeader::parse(&rom).expect("valid test ROM should parse");

    assert_eq!(header.title, "VIBEGB TEST");
    assert_eq!(header.cgb_mode, CgbMode::CgbEnhanced);
    assert!(header.sgb_supported);
    assert_eq!(header.cartridge_type, 0x01);
    assert_eq!(header.cartridge_type_name(), "MBC1");
    assert_eq!(header.rom_size_bytes, Some(32 * 1024));
    assert_eq!(header.ram_size_bytes, Some(8 * 1024));
    assert_eq!(header.old_licensee_code, 0x33);
    assert_eq!(header.new_licensee_code.as_deref(), Some("01"));
    assert_eq!(header.global_checksum, 0x1234);
    assert_eq!(header.header_checksum, header.calculated_header_checksum);
}

#[test]
fn rejects_roms_smaller_than_header() {
    let err = RomHeader::parse(&vec![0; MIN_ROM_SIZE - 1]).expect_err("expected error");
    assert!(matches!(
        err,
        HeaderError::RomTooSmall {
            actual,
            minimum: MIN_ROM_SIZE
        } if actual == MIN_ROM_SIZE - 1
    ));
}

#[test]
fn rejects_invalid_logo() {
    let mut rom = make_test_rom();
    rom[0x104] ^= 0xFF;
    let err = RomHeader::parse(&rom).expect_err("expected error");
    assert!(matches!(err, HeaderError::InvalidNintendoLogo));
}

#[test]
fn rejects_invalid_checksum() {
    let mut rom = make_test_rom();
    rom[0x14D] ^= 0x01;
    let err = RomHeader::parse(&rom).expect_err("expected error");
    assert!(matches!(err, HeaderError::InvalidHeaderChecksum { .. }));
}

#[test]
fn header_error_messages_match_their_variants() {
    let too_small = HeaderError::RomTooSmall {
        actual: 100,
        minimum: 336,
    };
    assert_eq!(
        too_small.message(),
        "ROM too small: got 100 bytes, need at least 336"
    );
    assert_eq!(
        HeaderError::InvalidNintendoLogo.message(),
        "invalid Nintendo logo in ROM header"
    );
    let checksum = HeaderError::InvalidHeaderChecksum {
        expected: 0xAB,
        actual: 0x05,
    };
    assert_eq!(
        checksum.message(),
        "invalid header checksum: expected 0xAB, got 0x05"
    );
}

#[test]
fn rom_from_bytes_keeps_the_image_and_maps_errors() {
    let image = make_test_rom();
    let rom = Rom::from_bytes(image.clone()).expect("valid image should wrap");
    assert_eq!(rom.data, image);
    assert_eq!(rom.header.title, "VIBEGB TEST");
    assert!(rom.path.is_none());

    let err = Rom::from_bytes(vec![0; 10]).expect_err("short image should fail");
    assert!(matches!(
        err,
        RomError::Header(HeaderError::RomTooSmall { actual: 10, .. })
    ));
    let io = RomError::Io {
        path: String::from("game.gb"),
        message: String::from("missing"),
    };
    assert_eq!(io.message(), "failed to read ROM 'game.gb': missing");
}

#[test]
fn titles_stop_at_zero_and_trim_trailing_spaces() {
    let mut rom = make_test_rom();
    rom[0x134..0x144].copy_from_slice(b"AB  \x00PADDINGPAD\x19");
    rom[0x143] = 0x00; // DMG: full 16-byte title field
    rom[0x14B] = 0x00; // old licensee
    rom[0x14D] = calculate_header_checksum(&rom);
    let header = RomHeader::parse(&rom).expect("ROM should parse");
    assert_eq!(header.title, "AB");
    assert_eq!(header.cgb_mode, CgbMode::DmgOnly);
    assert!(header.new_licensee_code.is_none());

    let mut odd = make_test_rom();
    odd[0x134..0x143].copy_from_slice(b"A\x07B CDEFGHIJKLM");
    odd[0x143] = 0x42; // unknown CGB flag: title keeps all 16 bytes
    odd[0x14D] = calculate_header_checksum(&odd);
    let header = RomHeader::parse(&odd).expect("ROM should parse");
    assert_eq!(header.title, "A?B CDEFGHIJKLMB");
    assert_eq!(header.cgb_mode, CgbMode::Unknown(0x42));
    assert_eq!(header.cgb_mode.label(), "unknown (0x42)");
}

#[test]
fn size_codes_map_to_byte_counts() {
    let mut rom = make_test_rom();
    rom[0x148] = 0x52;
    rom[0x149] = 0x09;
    rom[0x14D] = calculate_header_checksum(&rom);
    let header = RomHeader::parse(&rom).expect("ROM should parse");
    assert_eq!(header.rom_size_bytes, Some(1152 * 1024));
    assert_eq!(header.ram_size_bytes, None);
    assert_eq!(header.rom_size_code, 0x52);
    assert_eq!(header.ram_size_code, 0x09);
}
