//! Tests for the XCP protocol skeleton.

use telematic_bootloader::xcp::XcpProtocol;

#[test]
fn connect_describes_channel() {
    let mut xcp = XcpProtocol::new();
    let resp = xcp.process_message(&[0xFF, 0x00]);
    assert_eq!(resp.as_slice(), &[0xFF, 0x01, 0x00, 8, 8, 0x01, 0x01][..]);
}

#[test]
fn connect_needs_mode_byte() {
    let mut xcp = XcpProtocol::new();
    let resp = xcp.process_message(&[0xFF]);
    assert_eq!(resp.as_slice(), &[0xFE, 0x21][..]);
}

#[test]
fn commands_before_connect_denied() {
    let mut xcp = XcpProtocol::new();
    let resp = xcp.process_message(&[0xFD]);
    assert_eq!(resp.as_slice(), &[0xFE, 0x24][..]);
}

#[test]
fn empty_message_is_a_syntax_error() {
    let mut xcp = XcpProtocol::new();
    let resp = xcp.process_message(&[]);
    assert_eq!(resp.as_slice(), &[0xFE, 0x21][..]);
}

#[test]
fn disconnect_acknowledges() {
    let mut xcp = XcpProtocol::new();
    xcp.process_message(&[0xFF, 0x00]);
    let resp = xcp.process_message(&[0xFE]);
    assert_eq!(resp.as_slice(), &[0xFF][..]);
    // Afterwards the connection is gone.
    let resp = xcp.process_message(&[0xFD]);
    assert_eq!(resp.as_slice(), &[0xFE, 0x24][..]);
}

#[test]
fn status_reflects_programming_mode() {
    let mut xcp = XcpProtocol::new();
    xcp.process_message(&[0xFF, 0x00]);
    let resp = xcp.process_message(&[0xFD]);
    assert_eq!(resp.as_slice(), &[0xFF, 0x00, 0x00, 0x00, 0x00, 0x01, 0x02][..]);
    let resp = xcp.process_message(&[0xD2]);
    assert_eq!(resp.as_slice(), &[0xFF, 0x00, 0x00, 0x00, 0x00, 0x00, 0x00][..]);
    let resp = xcp.process_message(&[0xFD]);
    assert_eq!(resp.as_slice(), &[0xFF, 0x01, 0x00, 0x00, 0x00, 0x01, 0x02][..]);
    // SYNCH returns to a known state.
    let resp = xcp.process_message(&[0xFC]);
    assert_eq!(resp.as_slice(), &[0xFE, 0x00][..]);
    let resp = xcp.process_message(&[0xFD]);
    assert_eq!(resp.as_slice(), &[0xFF, 0x00, 0x00, 0x00, 0x00, 0x01, 0x02][..]);
}

#[test]
fn comm_mode_info_is_fixed() {
    let mut xcp = XcpProtocol::new();
    xcp.process_message(&[0xFF, 0x00]);
    let resp = xcp.process_message(&[0xFB]);
    assert_eq!(resp.as_slice(), &[0xFF, 0x00, 0x01, 0x00, 0x00, 0x01, 0x00][..]);
}

#[test]
fn get_id_reports_text_length() {
    let mut xcp = XcpProtocol::new();
    xcp.process_message(&[0xFF, 0x00]);
    // Identification text 0 has 27 characters.
    let resp = xcp.process_message(&[0xFA, 0x00]);
    assert_eq!(resp.as_slice(), &[0xFF, 0x01, 0x00, 27, 0x00, 0x00, 0x00][..]);
    let resp = xcp.process_message(&[0xFA, 0x01]);
    assert_eq!(resp.as_slice(), &[0xFF, 0x01, 0x00, 7, 0x00, 0x00, 0x00][..]);
    let resp = xcp.process_message(&[0xFA, 0x02]);
    assert_eq!(resp.as_slice(), &[0xFF, 0x01, 0x00, 6, 0x00, 0x00, 0x00][..]);
    let resp = xcp.process_message(&[0xFA, 0x07]);
    assert_eq!(resp.as_slice(), &[0xFF, 0x01, 0x00, 0, 0x00, 0x00, 0x00][..]);
    let resp = xcp.process_message(&[0xFA]);
    assert_eq!(resp.as_slice(), &[0xFE, 0x21][..]);
}

#[test]
fn set_mta_acknowledges() {
    let mut xcp = XcpProtocol::new();
    xcp.process_message(&[0xFF, 0x00]);
    let resp = xcp.process_message(&[0xF6, 0x00, 0x00, 0x00, 0x00, 0x01, 0x00, 0x00]);
    assert_eq!(resp.as_slice(), &[0xFF][..]);
    let resp = xcp.process_message(&[0xF6, 0x00, 0x00]);
    assert_eq!(resp.as_slice(), &[0xFE, 0x21][..]);
}

#[test]
fn unsupported_commands_report_unknown() {
    let mut xcp = XcpProtocol::new();
    xcp.process_message(&[0xFF, 0x00]);
    for cmd in [0xF5u8, 0xF4, 0xF3, 0xF0, 0xEF, 0xEE, 0xD0, 0xCF, 0x42] {
        let resp = xcp.process_message(&[cmd, 0x00]);
        assert_eq!(resp.as_slice(), &[0xFE, 0x20][..]);
    }
}

#[test]
fn program_clear_acknowledges() {
    let mut xcp = XcpProtocol::new();
    xcp.process_message(&[0xFF, 0x00]);
    let resp = xcp.process_message(&[0xD1, 0x00, 0x00, 0x00, 0x00, 0x00, 0x00, 0x00]);
    assert_eq!(resp.as_slice(), &[0xFF][..]);
}
