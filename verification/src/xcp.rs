//! XCP protocol skeleton, the secondary calibration-protocol surface kept
//! as a fallback beside UDS.  Connection management, status and identity
//! queries and the programming-mode entry points answer; the data transfer
//! commands report themselves unknown.

use vstd::prelude::*;
use crate::frame::{resp_bytes, resp_new, resp_push};
use vstd::string::StrSliceExecFns;

verus! {

// XCP command codes.
pub const XCP_CMD_CONNECT: u8 = 0xFF;
pub const XCP_CMD_DISCONNECT: u8 = 0xFE;
pub const XCP_CMD_GET_STATUS: u8 = 0xFD;
pub const XCP_CMD_SYNCH: u8 = 0xFC;
pub const XCP_CMD_GET_COMM_MODE_INFO: u8 = 0xFB;
pub const XCP_CMD_GET_ID: u8 = 0xFA;
pub const XCP_CMD_SET_MTA: u8 = 0xF6;
pub const XCP_CMD_UPLOAD: u8 = 0xF5;
pub const XCP_CMD_SHORT_UPLOAD: u8 = 0xF4;
pub const XCP_CMD_BUILD_CHECKSUM: u8 = 0xF3;
pub const XCP_CMD_DOWNLOAD: u8 = 0xF0;
pub const XCP_CMD_DOWNLOAD_NEXT: u8 = 0xEF;
pub const XCP_CMD_DOWNLOAD_MAX: u8 = 0xEE;
pub const XCP_CMD_PROGRAM_START: u8 = 0xD2;
pub const XCP_CMD_PROGRAM_CLEAR: u8 = 0xD1;
pub const XCP_CMD_PROGRAM: u8 = 0xD0;
pub const XCP_CMD_PROGRAM_RESET: u8 = 0xCF;

// XCP packet identifiers, the first byte of a response.
pub const XCP_PID_RESPONSE: u8 = 0xFF;
pub const XCP_PID_ERROR: u8 = 0xFE;
pub const XCP_PID_EVENT: u8 = 0xFD;

// XCP error codes.
pub const XCP_ERR_CMD_SYNCH: u8 = 0x00;
pub const XCP_ERR_CMD_BUSY: u8 = 0x10;
pub const XCP_ERR_DAQ_ACTIVE: u8 = 0x11;
pub const XCP_ERR_PGM_ACTIVE: u8 = 0x12;
pub const XCP_ERR_CMD_UNKNOWN: u8 = 0x20;
pub const XCP_ERR_CMD_SYNTAX: u8 = 0x21;
pub const XCP_ERR_OUT_OF_RANGE: u8 = 0x22;
pub const XCP_ERR_WRITE_PROTECTED: u8 = 0x23;
pub const XCP_ERR_ACCESS_DENIED: u8 = 0x24;
pub const XCP_ERR_ACCESS_LOCKED: u8 = 0x25;
pub const XCP_ERR_PAGE_NOT_VALID: u8 = 0x26;
pub const XCP_ERR_MODE_NOT_VALID: u8 = 0x27;
pub const XCP_ERR_SEGMENT_NOT_VALID: u8 = 0x28;
pub const XCP_ERR_SEQUENCE: u8 = 0x29;
pub const XCP_ERR_RESOURCE: u8 = 0x2A;
pub const XCP_ERR_MEMORY_OVERFLOW: u8 = 0x30;
pub const XCP_ERR_GENERIC: u8 = 0x31;
pub const XCP_ERR_VERIFY: u8 = 0x32;

/// Mirror of the XCP handler state for specifications.
pub struct XcpView {
    pub connected: bool,
    pub programming_mode: bool,
    pub memory_address: u32,
}

/// The two bytes of an XCP error response.
pub open spec fn xcp_error(code: u8) -> Seq<u8> {
    seq![XCP_PID_ERROR, code]
}

/// The identification text served for a GET_ID type.
pub open spec fn xcp_id_text(id_type: u8) -> Seq<char> {
    if id_type == 0 {
        "Gridania S32K148 Bootloader"@
    } else if id_type == 1 {
        "S32K148"@
    } else if id_type == 2 {
        "v1.0.0"@
    } else {
        ""@
    }
}

/// One XCP exchange: the state after handling `data` and the response.
pub open spec fn xcp_step(v: XcpView, data: Seq<u8>) -> (XcpView, Seq<u8>) {
    if data.len() == 0 {
        (v, xcp_error(XCP_ERR_CMD_SYNTAX))
    } else {
        let cmd = data[0];
        let payload = data.subrange(1, data.len() as int);
        if cmd == XCP_CMD_CONNECT {
            if payload.len() == 0 {
                (v, xcp_error(XCP_ERR_CMD_SYNTAX))
            } else {
                (
                    XcpView { connected: true, ..v },
                    seq![XCP_PID_RESPONSE, 0x01u8, 0x00u8, 8u8, 8u8, 0x01u8, 0x01u8],
                )
            }
        } else if !v.connected {
            (v, xcp_error(XCP_ERR_ACCESS_DENIED))
        } else if cmd == XCP_CMD_DISCONNECT {
            (XcpView { connected: false, ..v }, seq![XCP_PID_RESPONSE])
        } else if cmd == XCP_CMD_GET_STATUS {
            (
                v,
                seq![
                    XCP_PID_RESPONSE,
                    if v.programming_mode { 0x01u8 } else { 0x00u8 },
                    0x00u8, 0x00u8, 0x00u8, 0x01u8, 0x02u8,
                ],
            )
        } else if cmd == XCP_CMD_SYNCH {
            (XcpView { programming_mode: false, ..v }, xcp_error(XCP_ERR_CMD_SYNCH))
        } else if cmd == XCP_CMD_GET_COMM_MODE_INFO {
            (v, seq![XCP_PID_RESPONSE, 0x00u8, 0x01u8, 0x00u8, 0x00u8, 0x01u8, 0x00u8])
        } else if cmd == XCP_CMD_GET_ID {
            if payload.len() == 0 {
                (v, xcp_error(XCP_ERR_CMD_SYNTAX))
            } else {
                let id_len = xcp_id_text(payload[0]).len() as int;
                (
                    v,
                    seq![
                        XCP_PID_RESPONSE,
                        0x01u8,
                        ((id_len / 0x100) % 0x100) as u8,
                        (id_len % 0x100) as u8,
                        0x00u8, 0x00u8, 0x00u8,
                    ],
                )
            }
        } else if cmd == XCP_CMD_SET_MTA {
            if payload.len() < 7 {
                (v, xcp_error(XCP_ERR_CMD_SYNTAX))
            } else {
                let addr = (payload[3] * 0x100_0000 + payload[4] * 0x1_0000 + payload[5] * 0x100
                    + payload[6]) as u32;
                (XcpView { memory_address: addr, ..v }, seq![XCP_PID_RESPONSE])
            }
        } else if cmd == XCP_CMD_PROGRAM_START {
            (
                XcpView { programming_mode: true, ..v },
                seq![XCP_PID_RESPONSE, 0x00u8, 0x00u8, 0x00u8, 0x00u8, 0x00u8, 0x00u8],
            )
        } else if cmd == XCP_CMD_PROGRAM_CLEAR {
            (v, seq![XCP_PID_RESPONSE])
        } else if cmd == XCP_CMD_UPLOAD || cmd == XCP_CMD_SHORT_UPLOAD || cmd == XCP_CMD_BUILD_CHECKSUM
            || cmd == XCP_CMD_DOWNLOAD || cmd == XCP_CMD_DOWNLOAD_NEXT || cmd == XCP_CMD_DOWNLOAD_MAX
            || cmd == XCP_CMD_PROGRAM || cmd == XCP_CMD_PROGRAM_RESET {
            (v, xcp_error(XCP_ERR_CMD_UNKNOWN))
        } else {
            (v, xcp_error(XCP_ERR_CMD_UNKNOWN))
        }
    }
}

/// XCP protocol handler.
pub struct XcpProtocol {
    connected: bool,
    programming_mode: bool,
    memory_address: u32,
}

impl View for XcpProtocol {
    type V = XcpView;

    closed spec fn view(&self) -> XcpView {
        XcpView {
            connected: self.connected,
            programming_mode: self.programming_mode,
            memory_address: self.memory_address,
        }
    }
}

impl XcpProtocol {
    /// Create a new XCP handler, disconnected.
    pub fn new() -> (r: XcpProtocol)
        ensures
            r@ == (XcpView { connected: false, programming_mode: false, memory_address: 0u32 }),
    {
        XcpProtocol { connected: false, programming_mode: false, memory_address: 0 }
    }

    /// Disconnect and leave programming mode.
    pub fn init(&mut self)
        ensures
            final(self)@ == (XcpView { connected: false, programming_mode: false, memory_address: 0u32 }),
    {
        self.connected = false;
        self.programming_mode = false;
        self.memory_address = 0;
    }

    /// Process one incoming XCP message.
    pub fn process_message(&mut self, data: &[u8]) -> (r: heapless::Vec<u8, 64>)
        ensures
            final(self)@ == xcp_step(old(self)@, data@).0,
            resp_bytes(r) == xcp_step(old(self)@, data@).1,
    {
        if data.len() == 0 {
            return self.create_error_response(XCP_ERR_CMD_SYNTAX);
        }
        let cmd = data[0];
        let (_, payload) = data.split_at(1);
        if cmd == XCP_CMD_CONNECT {
            return self.handle_connect(payload);
        }
        if !self.connected {
            return self.create_error_response(XCP_ERR_ACCESS_DENIED);
        }
        match cmd {
            XCP_CMD_DISCONNECT => self.handle_disconnect(payload),
            XCP_CMD_GET_STATUS => self.handle_get_status(payload),
            XCP_CMD_SYNCH => self.handle_synch(payload),
            XCP_CMD_GET_COMM_MODE_INFO => self.handle_get_comm_mode_info(payload),
            XCP_CMD_GET_ID => self.handle_get_id(payload),
            XCP_CMD_SET_MTA => self.handle_set_mta(payload),
            XCP_CMD_PROGRAM_START => self.handle_program_start(payload),
            XCP_CMD_PROGRAM_CLEAR => self.handle_program_clear(payload),
            _ => self.create_error_response(XCP_ERR_CMD_UNKNOWN),
        }
    }

    /// Handle CONNECT: record the connection and describe the channel.
    fn handle_connect(&mut self, data: &[u8]) -> (r: heapless::Vec<u8, 64>)
        ensures
            data@.len() == 0 ==> *final(self) == *old(self)
                && resp_bytes(r) == xcp_error(XCP_ERR_CMD_SYNTAX),
            data@.len() > 0 ==> final(self)@ == (XcpView { connected: true, ..old(self)@ })
                && resp_bytes(r) == seq![XCP_PID_RESPONSE, 0x01u8, 0x00u8, 8u8, 8u8, 0x01u8, 0x01u8],
    {
        if data.len() == 0 {
            return self.create_error_response(XCP_ERR_CMD_SYNTAX);
        }
        self.connected = true;
        let mut response = resp_new();
        resp_push(&mut response, XCP_PID_RESPONSE);
        // Resource availability: CAL/PAG.
        resp_push(&mut response, 0x01);
        // Basic communication mode.
        resp_push(&mut response, 0x00);
        // Max CTO and DTO sizes: eight bytes each on CAN.
        resp_push(&mut response, 8);
        resp_push(&mut response, 8);
        // Protocol and transport layer versions.
        resp_push(&mut response, 0x01);
        resp_push(&mut response, 0x01);
        proof {
            assert(resp_bytes(response)
                =~= seq![XCP_PID_RESPONSE, 0x01u8, 0x00u8, 8u8, 8u8, 0x01u8, 0x01u8]);
        }
        response
    }

    /// Handle DISCONNECT.
    fn handle_disconnect(&mut self, data: &[u8]) -> (r: heapless::Vec<u8, 64>)
        ensures
            final(self)@ == (XcpView { connected: false, ..old(self)@ }),
            resp_bytes(r) == seq![XCP_PID_RESPONSE],
    {
        let _ = data;
        self.connected = false;
        let mut response = resp_new();
        resp_push(&mut response, XCP_PID_RESPONSE);
        proof {
            assert(resp_bytes(response) =~= seq![XCP_PID_RESPONSE]);
        }
        response
    }

    /// Handle GET_STATUS.
    fn handle_get_status(&self, data: &[u8]) -> (r: heapless::Vec<u8, 64>)
        ensures
            resp_bytes(r) == seq![
                XCP_PID_RESPONSE,
                if self@.programming_mode { 0x01u8 } else { 0x00u8 },
                0x00u8, 0x00u8, 0x00u8, 0x01u8, 0x02u8,
            ],
    {
        let _ = data;
        let mut response = resp_new();
        resp_push(&mut response, XCP_PID_RESPONSE);
        let status: u8 = if self.programming_mode { 0x01 } else { 0x00 };
        resp_push(&mut response, status);
        // Protection status and two reserved bytes.
        resp_push(&mut response, 0x00);
        resp_push(&mut response, 0x00);
        resp_push(&mut response, 0x00);
        // Session configuration identifier.
        resp_push(&mut response, 0x01);
        resp_push(&mut response, 0x02);
        proof {
            assert(resp_bytes(response) =~= seq![
                XCP_PID_RESPONSE,
                if self@.programming_mode { 0x01u8 } else { 0x00u8 },
                0x00u8, 0x00u8, 0x00u8, 0x01u8, 0x02u8,
            ]);
        }
        response
    }

    /// Handle SYNCH: return to a known state and answer the synch marker.
    fn handle_synch(&mut self, data: &[u8]) -> (r: heapless::Vec<u8, 64>)
        ensures
            final(self)@ == (XcpView { programming_mode: false, ..old(self)@ }),
            resp_bytes(r) == xcp_error(XCP_ERR_CMD_SYNCH),
    {
        let _ = data;
        self.programming_mode = false;
        self.create_error_response(XCP_ERR_CMD_SYNCH)
    }

    /// Handle GET_COMM_MODE_INFO.
    fn handle_get_comm_mode_info(&self, data: &[u8]) -> (r: heapless::Vec<u8, 64>)
        ensures
            resp_bytes(r) == seq![XCP_PID_RESPONSE, 0x00u8, 0x01u8, 0x00u8, 0x00u8, 0x01u8, 0x00u8],
    {
        let _ = data;
        let mut response = resp_new();
        resp_push(&mut response, XCP_PID_RESPONSE);
        // Reserved, max block size of one, no separation time, no queue.
        resp_push(&mut response, 0x00);
        resp_push(&mut response, 0x01);
        resp_push(&mut response, 0x00);
        resp_push(&mut response, 0x00);
        // Driver version.
        resp_push(&mut response, 0x01);
        resp_push(&mut response, 0x00);
        proof {
            assert(resp_bytes(response)
                =~= seq![XCP_PID_RESPONSE, 0x00u8, 0x01u8, 0x00u8, 0x00u8, 0x01u8, 0x00u8]);
        }
        response
    }

    /// Handle GET_ID: announce the length of the identification text; the
    /// text itself would follow in a further frame.
    fn handle_get_id(&self, data: &[u8]) -> (r: heapless::Vec<u8, 64>)
        ensures
            data@.len() == 0 ==> resp_bytes(r) == xcp_error(XCP_ERR_CMD_SYNTAX),
            data@.len() > 0 ==> resp_bytes(r) == seq![
                XCP_PID_RESPONSE,
                0x01u8,
                ((xcp_id_text(data@[0]).len() as int / 0x100) % 0x100) as u8,
                (xcp_id_text(data@[0]).len() as int % 0x100) as u8,
                0x00u8, 0x00u8, 0x00u8,
            ],
    {
        if data.len() == 0 {
            return self.create_error_response(XCP_ERR_CMD_SYNTAX);
        }
        let id_type = data[0];
        let id_text: &str = if id_type == 0 {
            "Gridania S32K148 Bootloader"
        } else if id_type == 1 {
            "S32K148"
        } else if id_type == 2 {
            "v1.0.0"
        } else {
            ""
        };
        proof {
            reveal_strlit("Gridania S32K148 Bootloader");
            reveal_strlit("S32K148");
            reveal_strlit("v1.0.0");
            reveal_strlit("");
        }
        let id_len: usize = id_text.unicode_len();
        let mut response = resp_new();
        resp_push(&mut response, XCP_PID_RESPONSE);
        // Identification follows as ASCII text.
        resp_push(&mut response, 0x01);
        resp_push(&mut response, ((id_len / 0x100) % 0x100) as u8);
        resp_push(&mut response, (id_len % 0x100) as u8);
        // Reserved.
        resp_push(&mut response, 0x00);
        resp_push(&mut response, 0x00);
        resp_push(&mut response, 0x00);
        proof {
            assert(resp_bytes(response) =~= seq![
                XCP_PID_RESPONSE,
                0x01u8,
                ((xcp_id_text(data@[0]).len() as int / 0x100) % 0x100) as u8,
                (xcp_id_text(data@[0]).len() as int % 0x100) as u8,
                0x00u8, 0x00u8, 0x00u8,
            ]);
        }
        response
    }

    /// Handle SET_MTA: record the memory transfer address.
    fn handle_set_mta(&mut self, data: &[u8]) -> (r: heapless::Vec<u8, 64>)
        ensures
            data@.len() < 7 ==> *final(self) == *old(self)
                && resp_bytes(r) == xcp_error(XCP_ERR_CMD_SYNTAX),
            data@.len() >= 7 ==> final(self)@ == (XcpView {
                memory_address: (data@[3] * 0x100_0000 + data@[4] * 0x1_0000 + data@[5] * 0x100
                    + data@[6]) as u32,
                ..old(self)@
            }) && resp_bytes(r) == seq![XCP_PID_RESPONSE],
    {
        if data.len() < 7 {
            return self.create_error_response(XCP_ERR_CMD_SYNTAX);
        }
        let addr = (data[3] as u32) * 0x100_0000 + (data[4] as u32) * 0x1_0000
            + (data[5] as u32) * 0x100 + (data[6] as u32);
        self.memory_address = addr;
        let mut response = resp_new();
        resp_push(&mut response, XCP_PID_RESPONSE);
        proof {
            assert(resp_bytes(response) =~= seq![XCP_PID_RESPONSE]);
        }
        response
    }

    /// Handle PROGRAM_START: enter programming mode.
    fn handle_program_start(&mut self, data: &[u8]) -> (r: heapless::Vec<u8, 64>)
        ensures
            final(self)@ == (XcpView { programming_mode: true, ..old(self)@ }),
            resp_bytes(r) == seq![XCP_PID_RESPONSE, 0x00u8, 0x00u8, 0x00u8, 0x00u8, 0x00u8, 0x00u8],
    {
        let _ = data;
        self.programming_mode = true;
        let mut response = resp_new();
        resp_push(&mut response, XCP_PID_RESPONSE);
        // Default communication mode and implementation-specific fields.
        resp_push(&mut response, 0x00);
        resp_push(&mut response, 0x00);
        resp_push(&mut response, 0x00);
        resp_push(&mut response, 0x00);
        resp_push(&mut response, 0x00);
        resp_push(&mut response, 0x00);
        proof {
            assert(resp_bytes(response)
                =~= seq![XCP_PID_RESPONSE, 0x00u8, 0x00u8, 0x00u8, 0x00u8, 0x00u8, 0x00u8]);
        }
        response
    }

    /// Handle PROGRAM_CLEAR.  The erase itself belongs to the flash engine;
    /// the skeleton acknowledges the command.
    fn handle_program_clear(&mut self, data: &[u8]) -> (r: heapless::Vec<u8, 64>)
        ensures
            *final(self) == *old(self),
            resp_bytes(r) == seq![XCP_PID_RESPONSE],
    {
        let _ = data;
        let mut response = resp_new();
        resp_push(&mut response, XCP_PID_RESPONSE);
        proof {
            assert(resp_bytes(response) =~= seq![XCP_PID_RESPONSE]);
        }
        response
    }

    /// Build an XCP error response.
    fn create_error_response(&self, error_code: u8) -> (r: heapless::Vec<u8, 64>)
        ensures
            resp_bytes(r) == xcp_error(error_code),
    {
        let mut response = resp_new();
        resp_push(&mut response, XCP_PID_ERROR);
        resp_push(&mut response, error_code);
        proof {
            assert(resp_bytes(response) =~= xcp_error(error_code));
        }
        response
    }
}

} // verus!
