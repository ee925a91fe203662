//! Tests for the bootloader core: the per-tick task, the boot validity
//! decision, and the inactivity timeout.

use telematic_bootloader::bootloader::BootLoader;
use telematic_bootloader::timeout::TimeoutReset;

/// Drive a full reflash through the task interface and leave a valid image.
fn reflash(bl: &mut BootLoader, t0: u32) {
    let (resp, _) = bl.task(Some(&[0x10, 0x02]), t0);
    assert_eq!(resp.as_slice(), &[0x50, 0x02][..]);
    let (resp, _) = bl.task(Some(&[0x27, 0x01]), t0 + 1);
    let seed = u32::from_be_bytes([resp[2], resp[3], resp[4], resp[5]]);
    let k = seed ^ 0x5A5A_5A5A;
    let key = ((k >> 3) | (k << 29)).to_be_bytes();
    let (resp, _) = bl.task(Some(&[0x27, 0x02, key[0], key[1], key[2], key[3]]), t0 + 2);
    assert_eq!(resp.as_slice(), &[0x67, 0x02][..]);
    let (resp, _) =
        bl.task(Some(&[0x34, 0x00, 0x44, 0x00, 0x00, 0x80, 0x00, 0x00, 0x00, 0x00, 0x20]), t0 + 3);
    assert_eq!(resp.as_slice(), &[0x74, 0x10, 0x04, 0x00][..]);
    let mut frame = vec![0x36, 0x01];
    frame.extend_from_slice(&[0x5A; 0x20]);
    let (resp, _) = bl.task(Some(&frame), t0 + 4);
    assert_eq!(resp.as_slice(), &[0x76, 0x01][..]);
    let (resp, _) = bl.task(Some(&[0x37]), t0 + 5);
    assert_eq!(resp.as_slice(), &[0x77][..]);
}

#[test]
fn fresh_device_has_no_valid_application() {
    let mut bl = BootLoader::new();
    bl.init();
    assert!(!bl.verify_application());
}

#[test]
fn sealed_application_is_valid_on_boot() {
    let mut bl = BootLoader::new();
    bl.init();
    reflash(&mut bl, 100);
    // On the next boot the validity check passes and no frame goes out.
    assert!(bl.verify_application());
    let (resp, reset) = bl.task(None, 1000);
    assert!(resp.is_empty());
    assert!(!reset);
}

#[test]
fn inactivity_without_download_forces_reset() {
    let mut bl = BootLoader::new();
    bl.init();
    let (resp, reset) = bl.task(Some(&[0x10, 0x02]), 1000);
    assert_eq!(resp.as_slice(), &[0x50, 0x02][..]);
    assert!(!reset);
    // Below the timeout nothing happens.
    let (resp, reset) = bl.task(None, 1499);
    assert!(resp.is_empty());
    assert!(!reset);
    // At 500 ms of silence the reset is demanded.
    let (resp, reset) = bl.task(None, 1500);
    assert!(resp.is_empty());
    assert!(reset);
}

#[test]
fn download_request_ends_inactivity_window() {
    let mut bl = BootLoader::new();
    bl.init();
    reflash(&mut bl, 2000);
    // Long silence after the download began: no inactivity reset.
    let (resp, reset) = bl.task(None, 10_000);
    assert!(resp.is_empty());
    assert!(!reset);
}

#[test]
fn tester_present_does_not_disarm_timeout() {
    let mut bl = BootLoader::new();
    bl.init();
    bl.task(Some(&[0x10, 0x02]), 0);
    let (resp, reset) = bl.task(Some(&[0x3E, 0x00]), 100);
    assert_eq!(resp.as_slice(), &[0x7E, 0x00][..]);
    assert!(!reset);
    // The window keeps running from the session entry.
    let (_, reset) = bl.task(Some(&[0x3E, 0x00]), 500);
    assert!(reset);
}

#[test]
fn ecu_reset_through_task() {
    let mut bl = BootLoader::new();
    bl.init();
    let (resp, reset) = bl.task(Some(&[0x11, 0x01]), 0);
    assert_eq!(resp.as_slice(), &[0x51, 0x01][..]);
    assert!(reset);
}

#[test]
fn timeout_comparison_wraps() {
    let mut t = TimeoutReset::new();
    // Armed shortly before the millisecond counter wraps around.
    t.set_flashing_init(0xFFFF_FF00);
    assert!(!t.check(0xFFFF_FFF0));
    // 0x1F4 = 500 ms after arming, past the wrap.
    assert!(t.check(0x0000_00F4));
    t.set_flashing_started();
    assert!(!t.check(0x0000_00F4));
}

#[test]
fn timeout_unarmed_never_fires() {
    let t = TimeoutReset::new();
    assert!(!t.check(0));
    assert!(!t.check(u32::MAX));
}
