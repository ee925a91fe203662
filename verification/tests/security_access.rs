//! Tests for security access: seed generation, key verification, and the
//! attempt throttle.

use telematic_bootloader::security::SecurityAccess;

fn key_for_seed(seed: u32) -> u32 {
    let k = seed ^ 0x5A5A_5A5A;
    (k >> 3) | (k << 29)
}

#[test]
fn seed_request_returns_masked_counter() {
    let mut sec = SecurityAccess::new();
    // Entropy 0 gives the bare mask as seed.
    let resp = sec.handle_security_access(&[0x01], 0);
    assert_eq!(resp.as_slice(), &[0x67, 0x01, 0xA5, 0xA5, 0xA5, 0xA5][..]);
}

#[test]
fn seed_is_entropy_xor_mask() {
    let sec = SecurityAccess::new();
    assert_eq!(sec.generate_seed(0x1234_5678), 0x1234_5678 ^ 0xA5A5_A5A5);
}

#[test]
fn calculate_key_exact_values() {
    let sec = SecurityAccess::new();
    // Seed equal to the key mask collapses to all ones.
    assert_eq!(sec.calculate_key(0x5A5A_5A5A ^ 0xFFFF_FFFF), 0xFFFF_FFFF);
    // Seed zero: the mask rotated right by three.
    assert_eq!(sec.calculate_key(0), 0x4B4B_4B4B);
}

#[test]
fn correct_key_unlocks() {
    let mut sec = SecurityAccess::new();
    let resp = sec.handle_security_access(&[0x01], 77);
    let seed = u32::from_be_bytes([resp[2], resp[3], resp[4], resp[5]]);
    let key = key_for_seed(seed).to_be_bytes();
    let resp = sec.handle_security_access(&[0x02, key[0], key[1], key[2], key[3]], 78);
    assert_eq!(resp.as_slice(), &[0x67, 0x02][..]);
    assert!(sec.is_unlocked());
}

#[test]
fn seed_when_unlocked_is_zero() {
    let mut sec = SecurityAccess::new();
    let resp = sec.handle_security_access(&[0x01], 5);
    let seed = u32::from_be_bytes([resp[2], resp[3], resp[4], resp[5]]);
    let key = key_for_seed(seed).to_be_bytes();
    sec.handle_security_access(&[0x02, key[0], key[1], key[2], key[3]], 6);
    let resp = sec.handle_security_access(&[0x01], 7);
    assert_eq!(resp.as_slice(), &[0x67, 0x01, 0x00, 0x00, 0x00, 0x00][..]);
}

#[test]
fn key_when_unlocked_echoes() {
    let mut sec = SecurityAccess::new();
    let resp = sec.handle_security_access(&[0x01], 5);
    let seed = u32::from_be_bytes([resp[2], resp[3], resp[4], resp[5]]);
    let key = key_for_seed(seed).to_be_bytes();
    sec.handle_security_access(&[0x02, key[0], key[1], key[2], key[3]], 6);
    let resp = sec.handle_security_access(&[0x02, 0, 0, 0, 0], 7);
    assert_eq!(resp.as_slice(), &[0x67, 0x02][..]);
}

#[test]
fn three_wrong_keys_then_lockout() {
    let mut sec = SecurityAccess::new();
    sec.handle_security_access(&[0x01], 0);
    // The expected key for entropy 0 is not zero, so zero keys fail.
    for _ in 0..3 {
        let resp = sec.handle_security_access(&[0x02, 0, 0, 0, 0], 0);
        assert_eq!(resp.as_slice(), &[0x7F, 0x27, 0x35][..]);
    }
    let resp = sec.handle_security_access(&[0x02, 0, 0, 0, 0], 0);
    assert_eq!(resp.as_slice(), &[0x7F, 0x27, 0x36][..]);
    // Seed requests are refused as well once locked out.
    let resp = sec.handle_security_access(&[0x01], 9);
    assert_eq!(resp.as_slice(), &[0x7F, 0x27, 0x36][..]);
    assert!(!sec.is_unlocked());
}

#[test]
fn short_key_payload_rejected() {
    let mut sec = SecurityAccess::new();
    let resp = sec.handle_security_access(&[0x02, 0x11, 0x22], 0);
    assert_eq!(resp.as_slice(), &[0x7F, 0x27, 0x22][..]);
}

#[test]
fn unsupported_subfunctions_rejected() {
    let mut sec = SecurityAccess::new();
    let resp = sec.handle_security_access(&[0x03], 0);
    assert_eq!(resp.as_slice(), &[0x7F, 0x27, 0x12][..]);
    let resp = sec.handle_security_access(&[0x04, 0, 0, 0, 0], 0);
    assert_eq!(resp.as_slice(), &[0x7F, 0x27, 0x12][..]);
    let resp = sec.handle_security_access(&[], 0);
    assert_eq!(resp.as_slice(), &[0x7F, 0x27, 0x12][..]);
}

#[test]
fn init_relocks() {
    let mut sec = SecurityAccess::new();
    let resp = sec.handle_security_access(&[0x01], 42);
    let seed = u32::from_be_bytes([resp[2], resp[3], resp[4], resp[5]]);
    let key = key_for_seed(seed).to_be_bytes();
    sec.handle_security_access(&[0x02, key[0], key[1], key[2], key[3]], 43);
    assert!(sec.is_unlocked());
    sec.init();
    assert!(!sec.is_unlocked());
}

#[test]
fn suppressed_seed_still_issues_challenge() {
    let mut sec = SecurityAccess::new();
    // Bit 7 suppresses the positive response; the challenge is in effect
    // all the same.
    let resp = sec.handle_security_access(&[0x81], 0x0BAD_F00D);
    assert!(resp.is_empty());
    let seed = 0x0BAD_F00D ^ 0xA5A5_A5A5;
    let key = key_for_seed(seed).to_be_bytes();
    let resp = sec.handle_security_access(&[0x02, key[0], key[1], key[2], key[3]], 0);
    assert_eq!(resp.as_slice(), &[0x67, 0x02][..]);
    assert!(sec.is_unlocked());
}
