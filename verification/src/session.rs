//! UDS session management: the dispatcher that gates every service on the
//! current diagnostic session and the security state, routes it to its
//! handler, and keeps the inactivity timeout informed.
//!
//! One call handles one assembled request and yields the response together
//! with the reset decision; the embedding program transmits the response and
//! performs the reset.  The millisecond clock reading serves both the
//! inactivity timeout and, as the rolling counter, seed generation.

use vstd::prelude::*;
use crate::flash::{Flash, FLASH_END};
use crate::frame::{resp_bytes, resp_new, resp_push};
use crate::security::{security_step, security_wf, SecurityAccess, SecurityView};
use crate::services::{ecu_reset_step, UdsServices};
use crate::timeout::{timeout_armed, TimeoutReset, TimeoutView};
use crate::transfer::{
    download_step, transfer_data_step, transfer_exit_step, transfer_wf, TransferManager,
    TransferView,
};
use crate::uds::{
    create_negative_response, negative_response, UDS_NRC_CONDITIONS_NOT_CORRECT,
    UDS_NRC_SECURITY_ACCESS_DENIED, UDS_NRC_SERVICE_NOT_SUPPORTED,
    UDS_NRC_SUB_FUNCTION_NOT_SUPPORTED, UDS_RSP_POSITIVE, UDS_SESSION_DEFAULT,
    UDS_SID_NEGATIVE_RESPONSE,
    UDS_SESSION_EXTENDED, UDS_SESSION_PROGRAMMING, UDS_SID_DIAGNOSTIC_SESSION_CONTROL,
    UDS_SID_ECU_RESET, UDS_SID_REQUEST_DOWNLOAD, UDS_SID_REQUEST_TRANSFER_EXIT,
    UDS_SID_SECURITY_ACCESS, UDS_SID_TESTER_PRESENT, UDS_SID_TRANSFER_DATA,
    UDS_SUPPRESS_POSITIVE_RESPONSE,
};

verus! {

/// Mirror of the session state for specifications.
pub struct SessionView {
    pub current_session: u8,
    pub security: SecurityView,
    pub transfer: TransferView,
}

/// The well-formed session states.
pub open spec fn session_wf(s: SessionView) -> bool {
    security_wf(s.security) && transfer_wf(s.transfer)
}

/// One session control exchange over the current session and timeout state:
/// the new session, the new timeout state, and the response.
pub open spec fn session_control_step(session: u8, t: TimeoutView, data: Seq<u8>, now_ms: u32) -> (u8, TimeoutView, Seq<u8>) {
    if data.len() == 0 {
        (session, t, negative_response(UDS_SID_DIAGNOSTIC_SESSION_CONTROL, UDS_NRC_SUB_FUNCTION_NOT_SUPPORTED))
    } else {
        let suppress = data[0] & UDS_SUPPRESS_POSITIVE_RESPONSE != 0;
        let session_type = data[0] & 0x7F;
        if session_type == UDS_SESSION_DEFAULT || session_type == UDS_SESSION_PROGRAMMING
            || session_type == UDS_SESSION_EXTENDED {
            (
                session_type,
                if session_type == UDS_SESSION_PROGRAMMING { timeout_armed(now_ms) } else { t },
                if suppress {
                    Seq::<u8>::empty()
                } else {
                    seq![(UDS_SID_DIAGNOSTIC_SESSION_CONTROL + UDS_RSP_POSITIVE) as u8, session_type]
                },
            )
        } else {
            (session, t, negative_response(UDS_SID_DIAGNOSTIC_SESSION_CONTROL, UDS_NRC_SUB_FUNCTION_NOT_SUPPORTED))
        }
    }
}

/// One tester present exchange: only subfunction zero is legal, and the
/// echo is suppressed on request.
pub open spec fn tester_present_step(data: Seq<u8>) -> Seq<u8> {
    if data.len() == 0 {
        negative_response(UDS_SID_TESTER_PRESENT, UDS_NRC_SUB_FUNCTION_NOT_SUPPORTED)
    } else if data[0] & 0x7F != 0 {
        negative_response(UDS_SID_TESTER_PRESENT, UDS_NRC_SUB_FUNCTION_NOT_SUPPORTED)
    } else if data[0] & UDS_SUPPRESS_POSITIVE_RESPONSE == 0 {
        seq![(UDS_SID_TESTER_PRESENT + UDS_RSP_POSITIVE) as u8, 0u8]
    } else {
        Seq::<u8>::empty()
    }
}

/// Everything one processed request determines: the session, timeout and
/// device state after it, the response bytes, and whether a system reset is
/// due once the response is out.
pub struct ProcessOutcome {
    pub session: SessionView,
    pub timeout: TimeoutView,
    pub mem: Seq<u8>,
    pub response: Seq<u8>,
    pub reset: bool,
}

/// The complete dispatch of one request `data` arriving at `now_ms`:
/// timeout notifications for requests seen in a programming session, then
/// the service handler, gated for the reprogramming services on the
/// programming session and on unlocked security.
pub open spec fn process_step(s: SessionView, t: TimeoutView, mem: Seq<u8>, data: Seq<u8>, now_ms: u32) -> ProcessOutcome {
    if data.len() == 0 {
        ProcessOutcome { session: s, timeout: t, mem: mem, response: Seq::<u8>::empty(), reset: false }
    } else {
        let sid = data[0];
        let payload = data.subrange(1, data.len() as int);
        let t1 = if s.current_session == UDS_SESSION_PROGRAMMING && sid == UDS_SID_DIAGNOSTIC_SESSION_CONTROL {
            timeout_armed(now_ms)
        } else if s.current_session == UDS_SESSION_PROGRAMMING && sid == UDS_SID_REQUEST_DOWNLOAD {
            TimeoutView { flashing_started: true, ..t }
        } else {
            t
        };
        if sid == UDS_SID_DIAGNOSTIC_SESSION_CONTROL {
            let r = session_control_step(s.current_session, t1, payload, now_ms);
            // Dropping back to the default session aborts any transfer.
            let aborted = payload.len() > 0 && payload[0] & 0x7F == UDS_SESSION_DEFAULT;
            ProcessOutcome {
                session: SessionView {
                    current_session: r.0,
                    transfer: if aborted {
                        TransferView { transfer_active: false, ..s.transfer }
                    } else {
                        s.transfer
                    },
                    ..s
                },
                timeout: r.1,
                mem: mem,
                response: r.2,
                reset: false,
            }
        } else if sid == UDS_SID_ECU_RESET {
            let r = ecu_reset_step(payload);
            ProcessOutcome { session: s, timeout: t1, mem: mem, response: r.0, reset: r.1 }
        } else if sid == UDS_SID_SECURITY_ACCESS {
            let r = security_step(s.security, payload, now_ms);
            ProcessOutcome {
                session: SessionView { security: r.0, ..s },
                timeout: t1,
                mem: mem,
                response: r.1,
                reset: false,
            }
        } else if sid == UDS_SID_TESTER_PRESENT {
            ProcessOutcome { session: s, timeout: t1, mem: mem, response: tester_present_step(payload), reset: false }
        } else if sid == UDS_SID_REQUEST_DOWNLOAD || sid == UDS_SID_TRANSFER_DATA
            || sid == UDS_SID_REQUEST_TRANSFER_EXIT {
            if s.current_session != UDS_SESSION_PROGRAMMING {
                ProcessOutcome {
                    session: s,
                    timeout: t1,
                    mem: mem,
                    response: negative_response(sid, UDS_NRC_CONDITIONS_NOT_CORRECT),
                    reset: false,
                }
            } else if !s.security.unlocked {
                ProcessOutcome {
                    session: s,
                    timeout: t1,
                    mem: mem,
                    response: negative_response(sid, UDS_NRC_SECURITY_ACCESS_DENIED),
                    reset: false,
                }
            } else if sid == UDS_SID_REQUEST_DOWNLOAD {
                let r = download_step(s.transfer, mem, payload);
                ProcessOutcome {
                    session: SessionView { transfer: r.0, ..s },
                    timeout: t1,
                    mem: r.1,
                    response: r.2,
                    reset: false,
                }
            } else if sid == UDS_SID_TRANSFER_DATA {
                let r = transfer_data_step(s.transfer, mem, payload);
                ProcessOutcome {
                    session: SessionView { transfer: r.0, ..s },
                    timeout: t1,
                    mem: r.1,
                    response: r.2,
                    reset: false,
                }
            } else {
                let r = transfer_exit_step(s.transfer, mem);
                ProcessOutcome {
                    session: SessionView { transfer: r.0, ..s },
                    timeout: t1,
                    mem: r.1,
                    response: r.2,
                    reset: false,
                }
            }
        } else {
            ProcessOutcome {
                session: s,
                timeout: t1,
                mem: mem,
                response: negative_response(sid, UDS_NRC_SERVICE_NOT_SUPPORTED),
                reset: false,
            }
        }
    }
}

/// UDS session manager.
pub struct UdsSession {
    current_session: u8,
    services: UdsServices,
    security: SecurityAccess,
    transfer: TransferManager,
}

impl View for UdsSession {
    type V = SessionView;

    closed spec fn view(&self) -> SessionView {
        SessionView {
            current_session: self.current_session,
            security: self.security@,
            transfer: self.transfer@,
        }
    }
}

impl UdsSession {
    /// Create a new session manager in the default session, locked, with no
    /// transfer in progress.
    pub fn new() -> (r: UdsSession)
        ensures
            session_wf(r@),
            r@.current_session == UDS_SESSION_DEFAULT,
            !r@.security.unlocked,
            r@.security.failed_attempts == 0,
            !r@.transfer.transfer_active,
    {
        UdsSession {
            current_session: UDS_SESSION_DEFAULT,
            services: UdsServices::new(),
            security: SecurityAccess::new(),
            transfer: TransferManager::new(),
        }
    }

    /// Return to the default session, relock, and clear any transfer.
    pub fn init(&mut self)
        requires
            session_wf(old(self)@),
        ensures
            session_wf(final(self)@),
            final(self)@.current_session == UDS_SESSION_DEFAULT,
            !final(self)@.security.unlocked,
            final(self)@.security.failed_attempts == 0,
            !final(self)@.transfer.transfer_active,
    {
        self.current_session = UDS_SESSION_DEFAULT;
        self.services.init();
        self.security.init();
        self.transfer.init();
    }

    /// Process one incoming UDS request.  Returns the response — empty when
    /// nothing is to be transmitted — and whether a system reset is due
    /// after the response is out.
    pub fn process_message(&mut self, data: &[u8], flash: &mut Flash, timeout_reset: &mut TimeoutReset, now_ms: u32) -> (r: (heapless::Vec<u8, 64>, bool))
        requires
            session_wf(old(self)@),
            old(flash)@.len() == FLASH_END,
        ensures
            session_wf(final(self)@),
            final(flash)@.len() == FLASH_END,
            final(self)@ == process_step(old(self)@, old(timeout_reset)@, old(flash)@, data@, now_ms).session,
            final(timeout_reset)@ == process_step(old(self)@, old(timeout_reset)@, old(flash)@, data@, now_ms).timeout,
            final(flash)@ == process_step(old(self)@, old(timeout_reset)@, old(flash)@, data@, now_ms).mem,
            resp_bytes(r.0) == process_step(old(self)@, old(timeout_reset)@, old(flash)@, data@, now_ms).response,
            r.1 == process_step(old(self)@, old(timeout_reset)@, old(flash)@, data@, now_ms).reset,
    {
        if data.len() == 0 {
            return (resp_new(), false);
        }
        let sid = data[0];

        // Keep the inactivity timeout informed while a programming session
        // is open: any session control re-arms it, a download request ends
        // the inactivity window.
        if self.current_session == UDS_SESSION_PROGRAMMING {
            if sid == UDS_SID_DIAGNOSTIC_SESSION_CONTROL {
                timeout_reset.set_flashing_init(now_ms);
            } else if sid == UDS_SID_REQUEST_DOWNLOAD {
                timeout_reset.set_flashing_started();
            }
        }

        let (_, payload) = data.split_at(1);
        match sid {
            UDS_SID_DIAGNOSTIC_SESSION_CONTROL => {
                (self.handle_session_control(payload, timeout_reset, now_ms), false)
            }
            UDS_SID_ECU_RESET => self.services.handle_ecu_reset(payload),
            UDS_SID_SECURITY_ACCESS => {
                (self.security.handle_security_access(payload, now_ms), false)
            }
            UDS_SID_TESTER_PRESENT => (self.handle_tester_present(payload), false),
            UDS_SID_REQUEST_DOWNLOAD => {
                if self.current_session != UDS_SESSION_PROGRAMMING {
                    (create_negative_response(sid, UDS_NRC_CONDITIONS_NOT_CORRECT), false)
                } else if !self.security.is_unlocked() {
                    (create_negative_response(sid, UDS_NRC_SECURITY_ACCESS_DENIED), false)
                } else {
                    (self.transfer.handle_request_download(payload, flash), false)
                }
            }
            UDS_SID_TRANSFER_DATA => {
                if self.current_session != UDS_SESSION_PROGRAMMING {
                    (create_negative_response(sid, UDS_NRC_CONDITIONS_NOT_CORRECT), false)
                } else if !self.security.is_unlocked() {
                    (create_negative_response(sid, UDS_NRC_SECURITY_ACCESS_DENIED), false)
                } else {
                    (self.transfer.handle_transfer_data(payload, flash), false)
                }
            }
            UDS_SID_REQUEST_TRANSFER_EXIT => {
                if self.current_session != UDS_SESSION_PROGRAMMING {
                    (create_negative_response(sid, UDS_NRC_CONDITIONS_NOT_CORRECT), false)
                } else if !self.security.is_unlocked() {
                    (create_negative_response(sid, UDS_NRC_SECURITY_ACCESS_DENIED), false)
                } else {
                    (self.transfer.handle_transfer_exit(payload, flash), false)
                }
            }
            _ => (create_negative_response(sid, UDS_NRC_SERVICE_NOT_SUPPORTED), false),
        }
    }

    /// Handle a diagnostic session control request.  A request for the
    /// default session aborts any download in progress.
    fn handle_session_control(&mut self, data: &[u8], timeout_reset: &mut TimeoutReset, now_ms: u32) -> (r: heapless::Vec<u8, 64>)
        ensures
            final(self)@ == (SessionView {
                current_session: session_control_step(old(self)@.current_session, old(timeout_reset)@, data@, now_ms).0,
                transfer: if data@.len() > 0 && data@[0] & 0x7F == UDS_SESSION_DEFAULT {
                    TransferView { transfer_active: false, ..old(self)@.transfer }
                } else {
                    old(self)@.transfer
                },
                ..old(self)@
            }),
            final(timeout_reset)@ == session_control_step(old(self)@.current_session, old(timeout_reset)@, data@, now_ms).1,
            resp_bytes(r) == session_control_step(old(self)@.current_session, old(timeout_reset)@, data@, now_ms).2,
    {
        if data.len() == 0 {
            return create_negative_response(
                UDS_SID_DIAGNOSTIC_SESSION_CONTROL,
                UDS_NRC_SUB_FUNCTION_NOT_SUPPORTED,
            );
        }
        let suppress = data[0] & UDS_SUPPRESS_POSITIVE_RESPONSE != 0;
        let session_type = data[0] & 0x7F;
        if session_type == UDS_SESSION_DEFAULT || session_type == UDS_SESSION_PROGRAMMING
            || session_type == UDS_SESSION_EXTENDED {
            self.current_session = session_type;
            // Entering the programming session arms the inactivity timeout;
            // leaving for the default session aborts any transfer.
            if session_type == UDS_SESSION_PROGRAMMING {
                timeout_reset.set_flashing_init(now_ms);
            } else if session_type == UDS_SESSION_DEFAULT {
                self.transfer.abort();
            }
            let mut response = resp_new();
            if !suppress {
                resp_push(&mut response, UDS_SID_DIAGNOSTIC_SESSION_CONTROL + UDS_RSP_POSITIVE);
                resp_push(&mut response, session_type);
                proof {
                    assert(resp_bytes(response) =~= session_control_step(
                        old(self)@.current_session, old(timeout_reset)@, data@, now_ms,
                    ).2);
                }
            }
            response
        } else {
            create_negative_response(
                UDS_SID_DIAGNOSTIC_SESSION_CONTROL,
                UDS_NRC_SUB_FUNCTION_NOT_SUPPORTED,
            )
        }
    }

    /// Handle a tester present request.
    fn handle_tester_present(&self, data: &[u8]) -> (r: heapless::Vec<u8, 64>)
        ensures
            resp_bytes(r) == tester_present_step(data@),
    {
        if data.len() == 0 {
            return create_negative_response(
                UDS_SID_TESTER_PRESENT,
                UDS_NRC_SUB_FUNCTION_NOT_SUPPORTED,
            );
        }
        let subfunction = data[0];
        if subfunction & 0x7F != 0x00 {
            return create_negative_response(
                UDS_SID_TESTER_PRESENT,
                UDS_NRC_SUB_FUNCTION_NOT_SUPPORTED,
            );
        }
        let mut response = resp_new();
        if subfunction & UDS_SUPPRESS_POSITIVE_RESPONSE == 0 {
            resp_push(&mut response, UDS_SID_TESTER_PRESENT + UDS_RSP_POSITIVE);
            resp_push(&mut response, 0x00);
            proof {
                assert(resp_bytes(response) =~= tester_present_step(data@));
            }
        }
        response
    }

    /// The current diagnostic session.
    pub fn get_session_type(&self) -> (r: u8)
        ensures
            r == self@.current_session,
    {
        self.current_session
    }
}

/// The reprogramming services are gated: outside the programming session
/// each of them is refused with `conditions not correct`, and inside it but
/// before security access is unlocked with `security access denied`; in
/// both cases the session, the security state, the transfer state and the
/// device do not change and no reset is due.
pub proof fn lemma_reprogramming_gated(s: SessionView, t: TimeoutView, mem: Seq<u8>, data: Seq<u8>, now_ms: u32)
    requires
        data.len() >= 1,
        data[0] == UDS_SID_REQUEST_DOWNLOAD || data[0] == UDS_SID_TRANSFER_DATA
            || data[0] == UDS_SID_REQUEST_TRANSFER_EXIT,
    ensures
        s.current_session != UDS_SESSION_PROGRAMMING ==> ({
            let o = process_step(s, t, mem, data, now_ms);
            o.response == negative_response(data[0], UDS_NRC_CONDITIONS_NOT_CORRECT)
                && o.session == s && o.mem == mem && !o.reset
        }),
        s.current_session == UDS_SESSION_PROGRAMMING && !s.security.unlocked ==> ({
            let o = process_step(s, t, mem, data, now_ms);
            o.response == negative_response(data[0], UDS_NRC_SECURITY_ACCESS_DENIED)
                && o.session == s && o.mem == mem && !o.reset
        }),
{
}

/// Entering the programming session arms the inactivity timeout at the
/// arrival time of the request.
pub proof fn lemma_programming_entry_arms_timeout(s: SessionView, t: TimeoutView, mem: Seq<u8>, data: Seq<u8>, now_ms: u32)
    requires
        data.len() >= 2,
        data[0] == UDS_SID_DIAGNOSTIC_SESSION_CONTROL,
        data[1] & 0x7F == UDS_SESSION_PROGRAMMING,
    ensures
        process_step(s, t, mem, data, now_ms).timeout == crate::timeout::timeout_armed(now_ms),
        process_step(s, t, mem, data, now_ms).session.current_session == UDS_SESSION_PROGRAMMING,
{
    let payload = data.subrange(1, data.len() as int);
    assert(payload[0] == data[1]);
}

/// No request other than session control or request download touches the
/// inactivity timeout: once armed, the window keeps running until a
/// download request ends it or it expires.
pub proof fn lemma_timeout_untouched(s: SessionView, t: TimeoutView, mem: Seq<u8>, data: Seq<u8>, now_ms: u32)
    requires
        data.len() >= 1,
        data[0] != UDS_SID_DIAGNOSTIC_SESSION_CONTROL,
        data[0] != UDS_SID_REQUEST_DOWNLOAD,
    ensures
        process_step(s, t, mem, data, now_ms).timeout == t,
{
}

/// The session, timeout and device state after a run of requests, the
/// `i`-th arriving at `times[i]`.
pub open spec fn run_requests(s: SessionView, t: TimeoutView, mem: Seq<u8>, frames: Seq<Seq<u8>>, times: Seq<u32>) -> (SessionView, TimeoutView, Seq<u8>)
    decreases frames.len(),
{
    if frames.len() == 0 {
        (s, t, mem)
    } else {
        let o = process_step(s, t, mem, frames[0], times[0]);
        run_requests(o.session, o.timeout, o.mem, frames.drop_first(), times.drop_first())
    }
}

/// A run of requests among which no session control and no download
/// request appears leaves the timeout state alone.
proof fn lemma_run_timeout_untouched(s: SessionView, t: TimeoutView, mem: Seq<u8>, frames: Seq<Seq<u8>>, times: Seq<u32>)
    requires
        frames.len() == times.len(),
        forall|i: int|
            0 <= i < frames.len() ==> frames[i].len() == 0 || (#[trigger] frames[i][0]
                != UDS_SID_DIAGNOSTIC_SESSION_CONTROL && frames[i][0] != UDS_SID_REQUEST_DOWNLOAD),
    ensures
        run_requests(s, t, mem, frames, times).1 == t,
    decreases frames.len(),
{
    if frames.len() > 0 {
        let o = process_step(s, t, mem, frames[0], times[0]);
        if frames[0].len() > 0 {
            lemma_timeout_untouched(s, t, mem, frames[0], times[0]);
        }
        assert(o.timeout == t);
        assert(forall|i: int|
            0 <= i < frames.drop_first().len() ==> frames.drop_first()[i].len() == 0
                || (#[trigger] frames.drop_first()[i][0] != UDS_SID_DIAGNOSTIC_SESSION_CONTROL
                    && frames.drop_first()[i][0] != UDS_SID_REQUEST_DOWNLOAD));
        lemma_run_timeout_untouched(o.session, o.timeout, o.mem, frames.drop_first(), times.drop_first());
    }
}

/// Entering the programming session and then, for at least the inactivity
/// timeout, issuing no download request leaves the expiry check demanding a
/// reset: whatever other traffic arrives in between, once the clock reads
/// 500 ms or more past the entry, under wrapping subtraction, the timeout
/// has expired.
pub proof fn lemma_inactivity_resets(s: SessionView, t: TimeoutView, mem: Seq<u8>, entry: Seq<u8>, t0: u32, frames: Seq<Seq<u8>>, times: Seq<u32>, now_ms: u32)
    requires
        entry.len() >= 2,
        entry[0] == UDS_SID_DIAGNOSTIC_SESSION_CONTROL,
        entry[1] & 0x7F == UDS_SESSION_PROGRAMMING,
        frames.len() == times.len(),
        forall|i: int|
            0 <= i < frames.len() ==> frames[i].len() == 0 || (#[trigger] frames[i][0]
                != UDS_SID_DIAGNOSTIC_SESSION_CONTROL && frames[i][0] != UDS_SID_REQUEST_DOWNLOAD),
        now_ms.wrapping_sub(t0) >= crate::timeout::CAN_RESET_TIMEOUT_MS,
    ensures
        ({
            let o = process_step(s, t, mem, entry, t0);
            crate::timeout::timeout_expired(
                run_requests(o.session, o.timeout, o.mem, frames, times).1,
                now_ms,
            )
        }),
{
    lemma_programming_entry_arms_timeout(s, t, mem, entry, t0);
    let o = process_step(s, t, mem, entry, t0);
    lemma_run_timeout_untouched(o.session, o.timeout, o.mem, frames, times);
}

/// The suppress-positive-response bit elides positive responses and only
/// those.  For the services carrying a subfunction, a request with bit 7 of
/// its subfunction set drives the very state transition of the unsuppressed
/// request; where that request is answered positively the suppressed one is
/// answered with nothing, and where it is refused the negative response is
/// not elided.
pub proof fn lemma_suppression(s: SessionView, t: TimeoutView, mem: Seq<u8>, data: Seq<u8>, now_ms: u32)
    requires
        data.len() >= 2,
        data[0] == UDS_SID_DIAGNOSTIC_SESSION_CONTROL || data[0] == UDS_SID_ECU_RESET
            || data[0] == UDS_SID_SECURITY_ACCESS || data[0] == UDS_SID_TESTER_PRESENT,
    ensures
        ({
            let base = data.update(1, data[1] & 0x7F);
            let sup = data.update(1, data[1] | 0x80);
            let ob = process_step(s, t, mem, base, now_ms);
            let os = process_step(s, t, mem, sup, now_ms);
            &&& os.session == ob.session
            &&& os.timeout == ob.timeout
            &&& os.mem == ob.mem
            &&& os.reset == ob.reset
            &&& (ob.response.len() > 0 && ob.response[0] == UDS_SID_NEGATIVE_RESPONSE
                ==> os.response == ob.response)
            &&& (ob.response.len() > 0 && ob.response[0] != UDS_SID_NEGATIVE_RESPONSE
                ==> os.response == Seq::<u8>::empty())
        }),
{
    let x = data[1];
    let masked = x & 0x7F;
    let with_bit = x | 0x80;
    assert((x & 0x7F) & 0x7F == x & 0x7F) by (bit_vector);
    assert((x | 0x80) & 0x7F == x & 0x7F) by (bit_vector);
    assert((x & 0x7F) & 0x80 == 0) by (bit_vector);
    assert((x | 0x80) & 0x80 != 0) by (bit_vector);
    let base = data.update(1, masked);
    let sup = data.update(1, with_bit);
    let payload = data.subrange(1, data.len() as int);
    assert(base.subrange(1, base.len() as int) =~= payload.update(0, masked));
    assert(sup.subrange(1, sup.len() as int) =~= payload.update(0, with_bit));
    let pb = payload.update(0, masked);
    let ps = payload.update(0, with_bit);
    assert(pb.len() >= 1 && ps.len() >= 1);
    assert(forall|i: int| 1 <= i < pb.len() ==> pb[i] == ps[i]);
}

} // verus!
