//! Tests for the flash engine: range policing, read-modify-write
//! programming, sector erase, and the checksum seal.

use telematic_bootloader::flash::{Flash, FlashError, APP_START, FLASH_END};
use telematic_bootloader::verification::{FirmwareVerification, VerificationError};

#[test]
fn fresh_device_reads_erased() {
    let flash = Flash::new();
    let bytes = flash.read_at(APP_START, 16);
    assert_eq!(bytes, vec![0xFF; 16]);
}

#[test]
fn write_and_read_back() {
    let mut flash = Flash::new();
    let data = [1u8, 2, 3, 4, 5];
    assert!(flash.write(0x0001_0000, &data).is_ok());
    assert_eq!(flash.read_at(0x0001_0000, 5), vec![1, 2, 3, 4, 5]);
    // Neighbouring bytes are untouched.
    assert_eq!(flash.read_at(0x0000_FFFF, 1), vec![0xFF]);
    assert_eq!(flash.read_at(0x0001_0005, 1), vec![0xFF]);
}

#[test]
fn write_below_app_start_rejected_and_unchanged() {
    let mut flash = Flash::new();
    let before = flash.read_at(0, 64);
    let r = flash.write(APP_START - 1, &[0xAA, 0xBB]);
    assert!(matches!(r, Err(FlashError::InvalidAddress)));
    assert_eq!(flash.read_at(0, 64), before);
}

#[test]
fn write_past_flash_end_rejected() {
    let mut flash = Flash::new();
    let r = flash.write(FLASH_END - 1, &[0xAA, 0xBB]);
    assert!(matches!(r, Err(FlashError::InvalidAddress)));
    assert_eq!(flash.read_at(FLASH_END - 1, 1), vec![0xFF]);
}

#[test]
fn zero_length_write_succeeds_in_zone_only() {
    let mut flash = Flash::new();
    assert!(flash.write(APP_START, &[]).is_ok());
    assert!(matches!(flash.write(APP_START - 4, &[]), Err(FlashError::InvalidAddress)));
}

#[test]
fn write_spanning_block_windows() {
    let mut flash = Flash::new();
    // Start misaligned within a 1024-byte window and cross two boundaries.
    let start = 0x0001_03F0;
    let data: Vec<u8> = (0..2200u32).map(|i| (i % 251) as u8).collect();
    assert!(flash.write(start, &data).is_ok());
    assert_eq!(flash.read_at(start, 2200), data);
    assert_eq!(flash.read_at(start - 1, 1), vec![0xFF]);
    assert_eq!(flash.read_at(start + 2200, 1), vec![0xFF]);
}

#[test]
fn erase_covers_whole_sectors() {
    let mut flash = Flash::new();
    // Program bytes around a sector, then erase a range that starts inside it.
    assert!(flash.write(0x0000_9000, &[0x11; 0x2000]).is_ok());
    assert!(flash.erase(0x0000_9100, 0x0F00).is_ok());
    // The whole sector [0x9000, 0xA000) is erased, not just [0x9100, 0xA000).
    assert_eq!(flash.read_at(0x0000_9000, 1), vec![0xFF]);
    assert_eq!(flash.read_at(0x0000_9FFF, 1), vec![0xFF]);
    // The next sector keeps its data.
    assert_eq!(flash.read_at(0x0000_A000, 1), vec![0x11]);
}

#[test]
fn erase_invalid_range_rejected() {
    let mut flash = Flash::new();
    assert!(matches!(flash.erase(0, 16), Err(FlashError::InvalidAddress)));
    assert!(matches!(flash.erase(FLASH_END - 4, 8), Err(FlashError::InvalidAddress)));
}

#[test]
fn valid_address_range_boundaries() {
    let flash = Flash::new();
    assert!(flash.is_valid_address_range(APP_START, FLASH_END - APP_START));
    assert!(!flash.is_valid_address_range(APP_START - 1, 1));
    assert!(!flash.is_valid_address_range(FLASH_END, 1));
    assert!(flash.is_valid_address_range(FLASH_END, 0));
}

#[test]
fn read_word_is_little_endian() {
    let mut flash = Flash::new();
    assert!(flash.write(APP_START, &[0x78, 0x56, 0x34, 0x12]).is_ok());
    assert_eq!(flash.read_word(APP_START), 0x1234_5678);
}

#[test]
fn checksum_seal_and_verify() {
    let mut flash = Flash::new();
    // A small vector table: seven words plus an untouched eighth.
    let words: [u32; 7] = [
        0x2000_8000, 0x0000_8101, 0x0000_8201, 0x0000_8301, 0x0000_8401, 0x0000_8501, 0x0000_8601,
    ];
    let mut table = Vec::new();
    for w in words {
        table.extend_from_slice(&w.to_le_bytes());
    }
    assert!(flash.write(APP_START, &table).is_ok());
    assert!(!flash.verify_checksum());
    assert!(flash.write_checksum().is_ok());
    assert!(flash.verify_checksum());
    // The stored word is the two's complement of the wrapping word sum.
    let sum = words.iter().fold(0u32, |a, w| a.wrapping_add(*w));
    let expected = (!sum).wrapping_add(1);
    assert_eq!(flash.read_at(APP_START + 0x3F8, 4), expected.to_le_bytes().to_vec());
}

#[test]
fn checksum_of_erased_table_is_seven() {
    let mut flash = Flash::new();
    // Seven words of 0xFFFFFFFF sum to -7 with wrap; the seal must be 7.
    assert!(flash.write_checksum().is_ok());
    assert_eq!(flash.read_at(APP_START + 0x3F8, 4), vec![0x07, 0x00, 0x00, 0x00]);
    assert!(flash.verify_checksum());
}

#[test]
fn finalize_is_idempotent() {
    let mut flash = Flash::new();
    assert!(flash.write(APP_START, &[1, 2, 3]).is_ok());
    assert!(flash.finalize().is_ok());
    assert!(flash.finalize().is_ok());
    assert_eq!(flash.read_at(APP_START, 3), vec![1, 2, 3]);
}

#[test]
fn app_address_is_configured_start() {
    let flash = Flash::new();
    assert_eq!(flash.get_app_address(), APP_START);
}

#[test]
fn calculate_checksum_exact_value() {
    let mut flash = Flash::new();
    let fv = FirmwareVerification::new();
    assert!(flash.write(APP_START, &[0x01, 0x00, 0x00, 0x00, 0x02, 0x00, 0x00, 0x00]).is_ok());
    // Two words, 1 and 2: checksum is the two's complement of 3.
    assert_eq!(fv.calculate_checksum(&flash, APP_START, 8), 0xFFFF_FFFD);
    // A trailing partial word is not covered.
    assert_eq!(fv.calculate_checksum(&flash, APP_START, 11), 0xFFFF_FFFD);
}

#[test]
fn verification_seals_image_at_custom_base() {
    let mut flash = Flash::new();
    let fv = FirmwareVerification::new();
    let base = 0x0001_0000;
    assert!(flash.write(base, &[0x21; 28]).is_ok());
    assert!(!fv.verify_application_checksum(&flash, base));
    assert!(fv.write_application_checksum(&mut flash, base).is_ok());
    assert!(fv.verify_application_checksum(&flash, base));
}

#[test]
fn verification_write_outside_zone_fails() {
    let mut flash = Flash::new();
    let fv = FirmwareVerification::new();
    // The checksum slot of an image based below APP_START lies in the
    // bootloader zone: the write is refused and nothing changes.
    let r = fv.write_application_checksum(&mut flash, 0x7C00);
    assert!(matches!(r, Err(VerificationError::WriteError)));
    assert_eq!(flash.read_at(0x7C00 + 0x3F8, 4), vec![0xFF; 4]);
}
