//! Tests for the download sequence: request download, chunked transfer
//! data, transfer exit, and the full reflash conversation.

use telematic_bootloader::flash::Flash;
use telematic_bootloader::session::UdsSession;
use telematic_bootloader::timeout::TimeoutReset;

struct Harness {
    session: UdsSession,
    flash: Flash,
    timeout: TimeoutReset,
}

impl Harness {
    fn new() -> Harness {
        Harness { session: UdsSession::new(), flash: Flash::new(), timeout: TimeoutReset::new() }
    }

    fn send(&mut self, frame: &[u8], now_ms: u32) -> (Vec<u8>, bool) {
        let (resp, reset) =
            self.session.process_message(frame, &mut self.flash, &mut self.timeout, now_ms);
        (resp.as_slice().to_vec(), reset)
    }

    /// Enter the programming session and unlock security.
    fn unlock(&mut self) {
        let (resp, _) = self.send(&[0x10, 0x02], 0);
        assert_eq!(resp, vec![0x50, 0x02]);
        let (resp, _) = self.send(&[0x27, 0x01], 1);
        assert_eq!(resp[0..2], [0x67, 0x01]);
        let seed = u32::from_be_bytes([resp[2], resp[3], resp[4], resp[5]]);
        let k = seed ^ 0x5A5A_5A5A;
        let key = ((k >> 3) | (k << 29)).to_be_bytes();
        let (resp, _) = self.send(&[0x27, 0x02, key[0], key[1], key[2], key[3]], 2);
        assert_eq!(resp, vec![0x67, 0x02]);
    }
}

#[test]
fn full_reflash_conversation() {
    let mut h = Harness::new();
    h.unlock();
    // Download 0x400 bytes at 0x00010000.
    let (resp, _) = h.send(&[0x34, 0x00, 0x44, 0x00, 0x01, 0x00, 0x00, 0x00, 0x00, 0x04, 0x00], 3);
    assert_eq!(resp, vec![0x74, 0x10, 0x04, 0x00]);
    // Two 512-byte blocks.
    let block1: Vec<u8> = (0..512u32).map(|i| (i % 256) as u8).collect();
    let block2: Vec<u8> = (0..512u32).map(|i| ((i + 7) % 256) as u8).collect();
    let mut frame = vec![0x36, 0x01];
    frame.extend_from_slice(&block1);
    let (resp, _) = h.send(&frame, 4);
    assert_eq!(resp, vec![0x76, 0x01]);
    let mut frame = vec![0x36, 0x02];
    frame.extend_from_slice(&block2);
    let (resp, _) = h.send(&frame, 5);
    assert_eq!(resp, vec![0x76, 0x02]);
    // Exit seals the image.
    let (resp, _) = h.send(&[0x37], 6);
    assert_eq!(resp, vec![0x77]);
    // The flashed bytes are the concatenation of the submitted payloads.
    let mut expected = block1.clone();
    expected.extend_from_slice(&block2);
    assert_eq!(h.flash.read_at(0x0001_0000, 0x400), expected);
    // The sealed image verifies.
    assert!(h.flash.verify_checksum());
    // The tester typically follows with a hard reset.
    let (resp, reset) = h.send(&[0x11, 0x01], 7);
    assert_eq!(resp, vec![0x51, 0x01]);
    assert!(reset);
}

#[test]
fn download_out_of_range_rejected_without_erase() {
    let mut h = Harness::new();
    h.unlock();
    assert!(h.flash.write(0x0001_0000, &[0x42]).is_ok());
    // Address zero lies below the application zone.
    let (resp, _) = h.send(&[0x34, 0x00, 0x44, 0x00, 0x00, 0x00, 0x00, 0x00, 0x01, 0x00, 0x00], 3);
    assert_eq!(resp, vec![0x7F, 0x34, 0x31]);
    // No erase happened anywhere.
    assert_eq!(h.flash.read_at(0x0001_0000, 1), vec![0x42]);
    // A transfer is not active either.
    let (resp, _) = h.send(&[0x36, 0x01, 0xAA], 4);
    assert_eq!(resp, vec![0x7F, 0x36, 0x24]);
}

#[test]
fn download_size_cap_enforced() {
    let mut h = Harness::new();
    h.unlock();
    // 0x200000 bytes exceed the 1 MiB cap.
    let (resp, _) = h.send(&[0x34, 0x00, 0x44, 0x00, 0x01, 0x00, 0x00, 0x00, 0x20, 0x00, 0x00], 3);
    assert_eq!(resp, vec![0x7F, 0x34, 0x31]);
}

#[test]
fn download_malformed_requests_rejected() {
    let mut h = Harness::new();
    h.unlock();
    let (resp, _) = h.send(&[0x34], 3);
    assert_eq!(resp, vec![0x7F, 0x34, 0x13]);
    // Declared fields longer than the payload.
    let (resp, _) = h.send(&[0x34, 0x00, 0x44, 0x00, 0x01], 4);
    assert_eq!(resp, vec![0x7F, 0x34, 0x13]);
    // A zero-byte address field is no valid format.
    let (resp, _) = h.send(&[0x34, 0x00, 0x04, 0x00, 0x00, 0x04, 0x00], 5);
    assert_eq!(resp, vec![0x7F, 0x34, 0x13]);
    // A five-byte size field is no valid format.
    let (resp, _) = h.send(&[0x34, 0x00, 0x45, 0, 1, 0, 0, 0, 0, 0, 4, 0], 6);
    assert_eq!(resp, vec![0x7F, 0x34, 0x13]);
}

#[test]
fn erase_happens_on_request_download() {
    let mut h = Harness::new();
    h.unlock();
    assert!(h.flash.write(0x0001_0000, &[0x42; 16]).is_ok());
    let (resp, _) = h.send(&[0x34, 0x00, 0x44, 0x00, 0x01, 0x00, 0x00, 0x00, 0x00, 0x00, 0x10], 3);
    assert_eq!(resp, vec![0x74, 0x10, 0x04, 0x00]);
    assert_eq!(h.flash.read_at(0x0001_0000, 16), vec![0xFF; 16]);
}

#[test]
fn wrong_block_counter_leaves_state_unchanged() {
    let mut h = Harness::new();
    h.unlock();
    let (resp, _) = h.send(&[0x34, 0x00, 0x44, 0x00, 0x01, 0x00, 0x00, 0x00, 0x00, 0x00, 0x08], 3);
    assert_eq!(resp, vec![0x74, 0x10, 0x04, 0x00]);
    // The first frame must carry counter 1; counter 2 is refused.
    let (resp, _) = h.send(&[0x36, 0x02, 0xAA, 0xBB], 4);
    assert_eq!(resp, vec![0x7F, 0x36, 0x73]);
    assert_eq!(h.flash.read_at(0x0001_0000, 2), vec![0xFF, 0xFF]);
    // The expected counter still works: the cursor did not move.
    let (resp, _) = h.send(&[0x36, 0x01, 0xAA, 0xBB], 5);
    assert_eq!(resp, vec![0x76, 0x01]);
    assert_eq!(h.flash.read_at(0x0001_0000, 2), vec![0xAA, 0xBB]);
}

#[test]
fn transfer_data_empty_payload_rejected() {
    let mut h = Harness::new();
    h.unlock();
    h.send(&[0x34, 0x00, 0x44, 0x00, 0x01, 0x00, 0x00, 0x00, 0x00, 0x00, 0x08], 3);
    let (resp, _) = h.send(&[0x36], 4);
    assert_eq!(resp, vec![0x7F, 0x36, 0x13]);
}

#[test]
fn transfer_data_beyond_declared_size_rejected() {
    let mut h = Harness::new();
    h.unlock();
    h.send(&[0x34, 0x00, 0x44, 0x00, 0x01, 0x00, 0x00, 0x00, 0x00, 0x00, 0x02], 3);
    let (resp, _) = h.send(&[0x36, 0x01, 0x01, 0x02, 0x03], 4);
    assert_eq!(resp, vec![0x7F, 0x36, 0x31]);
    // Two bytes fit.
    let (resp, _) = h.send(&[0x36, 0x01, 0x01, 0x02], 5);
    assert_eq!(resp, vec![0x76, 0x01]);
}

#[test]
fn transfer_exit_without_download_rejected() {
    let mut h = Harness::new();
    h.unlock();
    let (resp, _) = h.send(&[0x37], 3);
    assert_eq!(resp, vec![0x7F, 0x37, 0x24]);
}

#[test]
fn transfer_exit_closes_the_transfer() {
    let mut h = Harness::new();
    h.unlock();
    h.send(&[0x34, 0x00, 0x44, 0x00, 0x01, 0x00, 0x00, 0x00, 0x00, 0x00, 0x02], 3);
    h.send(&[0x36, 0x01, 0x01, 0x02], 4);
    let (resp, _) = h.send(&[0x37], 5);
    assert_eq!(resp, vec![0x77]);
    // A second exit finds no active transfer.
    let (resp, _) = h.send(&[0x37], 6);
    assert_eq!(resp, vec![0x7F, 0x37, 0x24]);
}

#[test]
fn default_session_aborts_transfer() {
    let mut h = Harness::new();
    h.unlock();
    h.send(&[0x34, 0x00, 0x44, 0x00, 0x01, 0x00, 0x00, 0x00, 0x00, 0x00, 0x08], 3);
    // Dropping to the default session aborts the download.
    let (resp, _) = h.send(&[0x10, 0x01], 4);
    assert_eq!(resp, vec![0x50, 0x01]);
    // Back in programming, security is still unlocked but no transfer runs.
    let (resp, _) = h.send(&[0x10, 0x02], 5);
    assert_eq!(resp, vec![0x50, 0x02]);
    let (resp, _) = h.send(&[0x36, 0x01, 0xAA], 6);
    assert_eq!(resp, vec![0x7F, 0x36, 0x24]);
}
