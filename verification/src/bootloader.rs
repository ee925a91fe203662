//! Core bootloader: composition of flash engine, bus controller, UDS
//! session and inactivity timeout, with the per-tick task and the boot
//! validity check.
//!
//! The embedding program owns the main loop: it polls the bus, hands any
//! assembled request to `task` together with the millisecond clock, then
//! transmits the returned response if one is due and performs the system
//! reset if one is demanded.  On reset it consults `verify_application`
//! before jumping to the application.

use vstd::prelude::*;
use crate::can::Can;
use crate::flash::{app_valid, Flash, FLASH_END};
use crate::frame::{resp_bytes, resp_new};
use crate::session::{process_step, session_wf, SessionView, UdsSession};
use crate::timeout::{timeout_expired, TimeoutReset, TimeoutView};

verus! {

/// Mirror of the bootloader state for specifications.
pub struct BootView {
    pub flash: Seq<u8>,
    pub session: SessionView,
    pub timeout: TimeoutView,
    pub can_initialized: bool,
}

/// What one tick determines: the state after it, the response bytes, and
/// whether a system reset is due.  The reset is due when the handled
/// request asks for one or when the inactivity timeout has expired.
pub open spec fn task_step(b: BootView, frame: Option<Seq<u8>>, now_ms: u32) -> (BootView, Seq<u8>, bool) {
    let (session, timeout, mem, response, reset) = match frame {
        Some(data) => {
            let o = process_step(b.session, b.timeout, b.flash, data, now_ms);
            (o.session, o.timeout, o.mem, o.response, o.reset)
        },
        None => (b.session, b.timeout, b.flash, Seq::<u8>::empty(), false),
    };
    (
        BootView { flash: mem, session: session, timeout: timeout, can_initialized: b.can_initialized },
        response,
        reset || timeout_expired(timeout, now_ms),
    )
}

/// Core bootloader.
pub struct BootLoader {
    flash: Flash,
    can: Can,
    uds_session: UdsSession,
    timeout_reset: TimeoutReset,
}

impl View for BootLoader {
    type V = BootView;

    closed spec fn view(&self) -> BootView {
        BootView {
            flash: self.flash@,
            session: self.uds_session@,
            timeout: self.timeout_reset@,
            can_initialized: self.can@.initialized,
        }
    }
}

/// The well-formed bootloader states.
pub open spec fn boot_wf(b: BootView) -> bool {
    b.flash.len() == FLASH_END && session_wf(b.session)
}

impl BootLoader {
    /// Create a new bootloader over an erased device: default session,
    /// locked, no transfer, timeout disarmed.
    pub fn new() -> (r: BootLoader)
        ensures
            boot_wf(r@),
            !r@.session.security.unlocked,
            !r@.session.transfer.transfer_active,
            !r@.timeout.flashing_init,
            !r@.can_initialized,
    {
        BootLoader {
            flash: Flash::new(),
            can: Can::new(),
            uds_session: UdsSession::new(),
            timeout_reset: TimeoutReset::new(),
        }
    }

    /// Initialize every component.
    pub fn init(&mut self)
        requires
            boot_wf(old(self)@),
        ensures
            boot_wf(final(self)@),
            final(self)@.flash == old(self)@.flash,
            final(self)@.can_initialized,
            !final(self)@.session.security.unlocked,
            !final(self)@.session.transfer.transfer_active,
            !final(self)@.timeout.flashing_init,
    {
        self.flash.init();
        self.can.init();
        self.uds_session.init();
        self.timeout_reset.init();
    }

    /// One tick of the main task: handle an assembled request, if one
    /// arrived, and check the inactivity timeout.  Returns the response —
    /// empty when nothing is to be transmitted — and whether a system reset
    /// is due once the response is out.
    pub fn task(&mut self, frame: Option<&[u8]>, now_ms: u32) -> (r: (heapless::Vec<u8, 64>, bool))
        requires
            boot_wf(old(self)@),
        ensures
            boot_wf(final(self)@),
            final(self)@ == task_step(old(self)@, frame_view(frame), now_ms).0,
            resp_bytes(r.0) == task_step(old(self)@, frame_view(frame), now_ms).1,
            r.1 == task_step(old(self)@, frame_view(frame), now_ms).2,
    {
        let (response, reset_requested) = match frame {
            Some(data) => {
                self.uds_session.process_message(data, &mut self.flash, &mut self.timeout_reset, now_ms)
            }
            None => (resp_new(), false),
        };
        // Reset if the tester opened a programming session and then went
        // silent without requesting a download.
        let timeout_hit = self.timeout_reset.check(now_ms);
        (response, reset_requested || timeout_hit)
    }

    /// Whether the resident application is valid and may be started.
    pub fn verify_application(&self) -> (r: bool)
        requires
            boot_wf(self@),
        ensures
            r == app_valid(self@.flash),
    {
        self.flash.verify_checksum()
    }
}

/// The sequence of bytes of an optional borrowed frame.
pub open spec fn frame_view(frame: Option<&[u8]>) -> Option<Seq<u8>> {
    match frame {
        Some(data) => Some(data@),
        None => None,
    }
}

} // verus!
