//! Tests for the UDS session state machine: session control, tester
//! present, ECU reset, gating of the reprogramming services, and the
//! suppress-positive-response bit.

use telematic_bootloader::flash::Flash;
use telematic_bootloader::session::UdsSession;
use telematic_bootloader::timeout::TimeoutReset;

struct Harness {
    session: UdsSession,
    flash: Flash,
    timeout: TimeoutReset,
}

impl Harness {
    fn new() -> Harness {
        Harness { session: UdsSession::new(), flash: Flash::new(), timeout: TimeoutReset::new() }
    }

    fn send(&mut self, frame: &[u8], now_ms: u32) -> (Vec<u8>, bool) {
        let (resp, reset) =
            self.session.process_message(frame, &mut self.flash, &mut self.timeout, now_ms);
        (resp.as_slice().to_vec(), reset)
    }
}

#[test]
fn session_control_changes_session() {
    let mut h = Harness::new();
    assert_eq!(h.session.get_session_type(), 0x01);
    let (resp, reset) = h.send(&[0x10, 0x02], 0);
    assert_eq!(resp, vec![0x50, 0x02]);
    assert!(!reset);
    assert_eq!(h.session.get_session_type(), 0x02);
    let (resp, _) = h.send(&[0x10, 0x03], 1);
    assert_eq!(resp, vec![0x50, 0x03]);
    assert_eq!(h.session.get_session_type(), 0x03);
    let (resp, _) = h.send(&[0x10, 0x01], 2);
    assert_eq!(resp, vec![0x50, 0x01]);
    assert_eq!(h.session.get_session_type(), 0x01);
}

#[test]
fn session_control_rejects_unknown_type() {
    let mut h = Harness::new();
    let (resp, _) = h.send(&[0x10, 0x04], 0);
    assert_eq!(resp, vec![0x7F, 0x10, 0x12]);
    assert_eq!(h.session.get_session_type(), 0x01);
    let (resp, _) = h.send(&[0x10], 0);
    assert_eq!(resp, vec![0x7F, 0x10, 0x12]);
}

#[test]
fn session_control_suppressed_response() {
    let mut h = Harness::new();
    let (resp, reset) = h.send(&[0x10, 0x82], 0);
    assert!(resp.is_empty());
    assert!(!reset);
    // The session changed even though the echo was suppressed.
    assert_eq!(h.session.get_session_type(), 0x02);
}

#[test]
fn tester_present_echoes() {
    let mut h = Harness::new();
    let (resp, _) = h.send(&[0x3E, 0x00], 0);
    assert_eq!(resp, vec![0x7E, 0x00]);
}

#[test]
fn tester_present_suppressed() {
    let mut h = Harness::new();
    let (resp, _) = h.send(&[0x3E, 0x80], 0);
    assert!(resp.is_empty());
}

#[test]
fn tester_present_rejects_other_subfunctions() {
    let mut h = Harness::new();
    let (resp, _) = h.send(&[0x3E, 0x01], 0);
    assert_eq!(resp, vec![0x7F, 0x3E, 0x12]);
    let (resp, _) = h.send(&[0x3E], 0);
    assert_eq!(resp, vec![0x7F, 0x3E, 0x12]);
}

#[test]
fn ecu_reset_responds_then_resets() {
    let mut h = Harness::new();
    let (resp, reset) = h.send(&[0x11, 0x01], 0);
    assert_eq!(resp, vec![0x51, 0x01]);
    assert!(reset);
    let (resp, reset) = h.send(&[0x11, 0x03], 0);
    assert_eq!(resp, vec![0x51, 0x03]);
    assert!(reset);
}

#[test]
fn ecu_reset_suppressed_still_resets() {
    let mut h = Harness::new();
    let (resp, reset) = h.send(&[0x11, 0x81], 0);
    assert!(resp.is_empty());
    assert!(reset);
}

#[test]
fn ecu_reset_rejects_unknown_type() {
    let mut h = Harness::new();
    let (resp, reset) = h.send(&[0x11, 0x02], 0);
    assert_eq!(resp, vec![0x7F, 0x11, 0x12]);
    assert!(!reset);
    let (resp, reset) = h.send(&[0x11], 0);
    assert_eq!(resp, vec![0x7F, 0x11, 0x12]);
    assert!(!reset);
}

#[test]
fn unsupported_service_rejected() {
    let mut h = Harness::new();
    let (resp, _) = h.send(&[0x99, 0x01], 0);
    assert_eq!(resp, vec![0x7F, 0x99, 0x11]);
}

#[test]
fn empty_frame_gets_no_response() {
    let mut h = Harness::new();
    let (resp, reset) = h.send(&[], 0);
    assert!(resp.is_empty());
    assert!(!reset);
}

#[test]
fn reprogramming_requires_programming_session() {
    let mut h = Harness::new();
    for sid in [0x34u8, 0x36, 0x37] {
        let (resp, _) = h.send(&[sid, 0x01], 0);
        assert_eq!(resp, vec![0x7F, sid, 0x22]);
    }
}

#[test]
fn reprogramming_requires_security_unlock() {
    let mut h = Harness::new();
    h.send(&[0x10, 0x02], 0);
    for sid in [0x34u8, 0x36, 0x37] {
        let (resp, _) = h.send(&[sid, 0x01], 1);
        assert_eq!(resp, vec![0x7F, sid, 0x33]);
    }
}

#[test]
fn extended_session_does_not_permit_reprogramming() {
    let mut h = Harness::new();
    h.send(&[0x10, 0x03], 0);
    let (resp, _) = h.send(&[0x34, 0x44, 0x00], 1);
    assert_eq!(resp, vec![0x7F, 0x34, 0x22]);
}

#[test]
fn seed_entropy_is_the_clock_reading() {
    let mut h = Harness::new();
    h.send(&[0x10, 0x02], 0);
    // The rolling counter fed to seed generation is the clock reading.
    let (resp, _) = h.send(&[0x27, 0x01], 0x1234_5678);
    let expected = (0x1234_5678u32 ^ 0xA5A5_A5A5).to_be_bytes();
    assert_eq!(resp, vec![0x67, 0x01, expected[0], expected[1], expected[2], expected[3]]);
}
