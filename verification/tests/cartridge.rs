use nes6502::cartridge::{Cartridge, LoadError};

fn image(prg_banks: u8, chr_banks: u8, flags6: u8, flags7: u8, tv: u8) -> Vec<u8> {
    let mut bytes = vec![0x4E, 0x45, 0x53, 0x1A, prg_banks, chr_banks, flags6, flags7];
    bytes.resize(16, 0);
    bytes[10] = tv;
    for i in 0..(0x4000 * prg_banks as usize) {
        bytes.push((i % 251) as u8);
    }
    for i in 0..(0x2000 * chr_banks as usize) {
        bytes.push((i % 241) as u8 ^ 0xFF);
    }
    bytes
}

#[test]
fn new_cartridge_is_empty() {
    let cartridge = Cartridge::new();
    assert!(cartridge.get_rom().is_empty());
    assert!(cartridge.get_vrom().is_empty());
    assert!(!cartridge.has_extended_ram());
    assert_eq!(cartridge.name_table_mirroring(), 0);
    assert_eq!(cartridge.mapper_number(), 0);
}

#[test]
fn load_one_bank_without_graphics() {
    let bytes = image(1, 0, 0, 0, 0);
    let mut cartridge = Cartridge::new();
    assert_eq!(cartridge.load_from_bytes(&bytes), Ok(()));
    assert_eq!(cartridge.get_rom().len(), 0x4000);
    assert_eq!(cartridge.get_rom()[..], bytes[16..16 + 0x4000]);
    assert!(cartridge.get_vrom().is_empty());
}

#[test]
fn load_two_banks_with_graphics() {
    let bytes = image(2, 1, 0, 0, 0);
    let mut cartridge = Cartridge::new();
    assert_eq!(cartridge.load_from_bytes(&bytes), Ok(()));
    assert_eq!(cartridge.get_rom().len(), 0x8000);
    assert_eq!(cartridge.get_vrom().len(), 0x2000);
    assert_eq!(cartridge.get_rom()[..], bytes[16..16 + 0x8000]);
    assert_eq!(cartridge.get_vrom()[..], bytes[16 + 0x8000..16 + 0x8000 + 0x2000]);
    assert_eq!(cartridge.get_rom()[0x4001], (0x4001 % 251) as u8);
    assert_eq!(cartridge.get_vrom()[3], 3 ^ 0xFF);
}

#[test]
fn load_reads_header_flags() {
    // byte 6: mapper low nibble 0x5, four-screen bit 3, extended RAM bit 1, mirroring bit 0
    // byte 7: mapper high nibble 0xA, low nibble ignored
    let bytes = image(1, 0, 0x5B, 0xA7, 0);
    let mut cartridge = Cartridge::new();
    assert_eq!(cartridge.load_from_bytes(&bytes), Ok(()));
    assert_eq!(cartridge.mapper_number(), 0xA5);
    assert_eq!(cartridge.name_table_mirroring(), 0x01);
    assert!(cartridge.has_extended_ram());
}

#[test]
fn load_without_extended_ram_flag() {
    let bytes = image(1, 0, 0x11, 0x20, 0);
    let mut cartridge = Cartridge::new();
    assert_eq!(cartridge.load_from_bytes(&bytes), Ok(()));
    assert_eq!(cartridge.mapper_number(), 0x21);
    assert_eq!(cartridge.name_table_mirroring(), 0x01);
    assert!(!cartridge.has_extended_ram());
}

#[test]
fn load_ignores_bytes_behind_the_body() {
    let mut bytes = image(1, 1, 0, 0, 0);
    let body = bytes.len();
    bytes.extend_from_slice(&[1, 2, 3]);
    let mut cartridge = Cartridge::new();
    assert_eq!(cartridge.load_from_bytes(&bytes), Ok(()));
    assert_eq!(cartridge.get_rom().len(), 0x4000);
    assert_eq!(cartridge.get_vrom().len(), 0x2000);
    assert_eq!(cartridge.get_vrom()[..], bytes[16 + 0x4000..body]);
}

#[test]
fn load_replaces_an_earlier_cartridge() {
    let mut cartridge = Cartridge::new();
    assert_eq!(cartridge.load_from_bytes(&image(2, 1, 0x02, 0, 0)), Ok(()));
    assert_eq!(cartridge.load_from_bytes(&image(1, 0, 0x10, 0, 0)), Ok(()));
    assert_eq!(cartridge.get_rom().len(), 0x4000);
    assert!(cartridge.get_vrom().is_empty());
    assert!(!cartridge.has_extended_ram());
    assert_eq!(cartridge.mapper_number(), 1);
}

#[test]
fn short_header_is_refused() {
    let mut cartridge = Cartridge::new();
    assert_eq!(cartridge.load_from_bytes(&[]), Err(LoadError::TruncatedHeader));
    assert_eq!(
        cartridge.load_from_bytes(&[0x4E, 0x45, 0x53, 0x1A, 1, 0, 0, 0, 0, 0, 0, 0, 0, 0, 0]),
        Err(LoadError::TruncatedHeader)
    );
}

#[test]
fn bad_signature_is_refused_before_any_buffer_is_populated() {
    for at in 0..4 {
        let mut bytes = image(1, 1, 0x02, 0x10, 0);
        bytes[at] ^= 0x01;
        let mut cartridge = Cartridge::new();
        assert_eq!(cartridge.load_from_bytes(&bytes), Err(LoadError::BadSignature));
        assert!(cartridge.get_rom().is_empty());
        assert!(cartridge.get_vrom().is_empty());
        assert!(!cartridge.has_extended_ram());
        assert_eq!(cartridge.mapper_number(), 0);
    }
}

#[test]
fn signature_is_checked_before_the_bank_count() {
    let mut bytes = image(0, 0, 0x04, 0, 1);
    bytes[3] = 0x1B;
    let mut cartridge = Cartridge::new();
    assert_eq!(cartridge.load_from_bytes(&bytes), Err(LoadError::BadSignature));
}

#[test]
fn zero_program_banks_are_refused() {
    let mut cartridge = Cartridge::new();
    assert_eq!(cartridge.load_from_bytes(&image(0, 1, 0, 0, 0)), Err(LoadError::NoPrgBanks));
    assert_eq!(cartridge.load_from_bytes(&image(0, 0, 0x04, 0, 1)), Err(LoadError::NoPrgBanks));
}

#[test]
fn trainer_is_refused() {
    let mut cartridge = Cartridge::new();
    assert_eq!(
        cartridge.load_from_bytes(&image(1, 0, 0x04, 0, 0)),
        Err(LoadError::TrainerUnsupported)
    );
    assert_eq!(
        cartridge.load_from_bytes(&image(1, 0, 0xF7, 0, 1)),
        Err(LoadError::TrainerUnsupported)
    );
}

#[test]
fn pal_and_dual_images_are_refused() {
    let mut cartridge = Cartridge::new();
    for tv in [1u8, 2, 3, 0xFD, 0xFE] {
        assert_eq!(
            cartridge.load_from_bytes(&image(1, 0, 0, 0, tv)),
            Err(LoadError::PalUnsupported)
        );
    }
    assert_eq!(cartridge.load_from_bytes(&image(1, 0, 0, 0, 0xFC)), Ok(()));
}

#[test]
fn truncated_program_rom_is_refused() {
    let mut bytes = image(1, 0, 0, 0, 0);
    bytes.pop();
    let mut cartridge = Cartridge::new();
    assert_eq!(cartridge.load_from_bytes(&bytes), Err(LoadError::TruncatedPrg));
    assert_eq!(cartridge.load_from_bytes(&bytes[..16]), Err(LoadError::TruncatedPrg));
}

#[test]
fn truncated_graphics_rom_is_refused() {
    let mut bytes = image(1, 2, 0, 0, 0);
    bytes.pop();
    let mut cartridge = Cartridge::new();
    assert_eq!(cartridge.load_from_bytes(&bytes), Err(LoadError::TruncatedChr));
    assert_eq!(cartridge.load_from_bytes(&bytes[..16 + 0x4000]), Err(LoadError::TruncatedChr));
}

#[test]
fn refused_image_leaves_a_loaded_cartridge_alone() {
    let good = image(1, 1, 0x32, 0x40, 0);
    let mut cartridge = Cartridge::new();
    assert_eq!(cartridge.load_from_bytes(&good), Ok(()));
    let mut bad = image(2, 0, 0x00, 0x00, 0);
    bad.truncate(100);
    assert_eq!(cartridge.load_from_bytes(&bad), Err(LoadError::TruncatedPrg));
    assert_eq!(
        cartridge.load_from_bytes(&image(1, 0, 0x04, 0, 0)),
        Err(LoadError::TrainerUnsupported)
    );
    assert_eq!(cartridge.get_rom()[..], good[16..16 + 0x4000]);
    assert_eq!(cartridge.get_vrom()[..], good[16 + 0x4000..]);
    assert_eq!(cartridge.mapper_number(), 0x43);
    assert_eq!(cartridge.name_table_mirroring(), 0x00);
    assert!(cartridge.has_extended_ram());
}

#[test]
fn largest_image_loads() {
    let bytes = image(255, 0, 0, 0, 0);
    let mut cartridge = Cartridge::new();
    assert_eq!(cartridge.load_from_bytes(&bytes), Ok(()));
    assert_eq!(cartridge.get_rom().len(), 0x4000 * 255);
}

#[test]
fn error_messages() {
    assert_eq!(LoadError::TruncatedHeader.message(), "Reading iNES header failed.");
    assert_eq!(LoadError::BadSignature.message(), "Not a valid iNES image.");
    assert_eq!(LoadError::NoPrgBanks.message(), "ROM has no PRG-ROM banks. Loading ROM failed.");
    assert_eq!(LoadError::TrainerUnsupported.message(), "Trainer is not supported.");
    assert_eq!(LoadError::PalUnsupported.message(), "PAL ROM not supported.");
    assert_eq!(LoadError::TruncatedPrg.message(), "Reading PRG-ROM from image file failed.");
    assert_eq!(LoadError::TruncatedChr.message(), "Reading CHR-ROM from image file failed.");
}

#[test]
fn mirroring_mode_is_bit_0() {
    for (flags6, mode) in [(0x00u8, 0x00u8), (0x01, 0x01), (0x02, 0x00), (0x03, 0x01), (0x08, 0x00)]
    {
        let mut cartridge = Cartridge::new();
        assert_eq!(cartridge.load_from_bytes(&image(1, 0, flags6, 0, 0)), Ok(()));
        assert_eq!(cartridge.name_table_mirroring(), mode);
        assert_eq!(cartridge.has_extended_ram(), flags6 & 0x02 != 0);
    }
    let mut cartridge = Cartridge::new();
    assert_eq!(cartridge.load_from_bytes(&image(1, 0, 0xFB, 0, 0)), Ok(()));
    assert_eq!(cartridge.name_table_mirroring(), 0x01);
    assert_eq!(cartridge.mapper_number(), 0x0F);
}

#[test]
fn a_copy_of_a_cartridge_holds_the_same() {
    let bytes = image(1, 1, 0x13, 0x20, 0);
    let mut cartridge = Cartridge::new();
    assert_eq!(cartridge.load_from_bytes(&bytes), Ok(()));
    let copy = cartridge.clone();
    assert_eq!(copy.get_rom(), cartridge.get_rom());
    assert_eq!(copy.get_vrom(), cartridge.get_vrom());
    assert_eq!(copy.mapper_number(), 0x21);
    assert_eq!(copy.name_table_mirroring(), 0x01);
    assert!(copy.has_extended_ram());
}
