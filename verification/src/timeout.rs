//! Inactivity timeout: a tester that opens a programming session but never
//! begins a download must not strand the device in the bootloader, so the
//! main loop asks on every tick whether to reset.
//!
//! The millisecond clock is platform work and is passed in; comparison uses
//! wrapping subtraction so that counter wraparound cannot defeat the
//! timeout.

use vstd::prelude::*;

verus! {

/// Reset timeout in milliseconds: entering a programming session arms it,
/// a download request disarms it.
pub const CAN_RESET_TIMEOUT_MS: u32 = 500;

/// Mirror of the timeout state for specifications.
pub struct TimeoutView {
    pub flashing_init: bool,
    pub flashing_started: bool,
    pub timeout_timestamp: u32,
}

/// The armed state recorded when a programming session opens at `now_ms`.
pub open spec fn timeout_armed(now_ms: u32) -> TimeoutView {
    TimeoutView { flashing_init: true, flashing_started: false, timeout_timestamp: now_ms }
}

/// Whether the timeout has expired at `now_ms`: armed, no download begun,
/// and at least the timeout elapsed since arming, under wrapping
/// subtraction.
pub open spec fn timeout_expired(t: TimeoutView, now_ms: u32) -> bool {
    t.flashing_init && !t.flashing_started
        && now_ms.wrapping_sub(t.timeout_timestamp) >= CAN_RESET_TIMEOUT_MS
}

/// Timeout reset handler for firmware updates.
pub struct TimeoutReset {
    flashing_init: bool,
    flashing_started: bool,
    timeout_timestamp: u32,
}

impl View for TimeoutReset {
    type V = TimeoutView;

    closed spec fn view(&self) -> TimeoutView {
        TimeoutView {
            flashing_init: self.flashing_init,
            flashing_started: self.flashing_started,
            timeout_timestamp: self.timeout_timestamp,
        }
    }
}

impl TimeoutReset {
    /// Create a new timeout handler, disarmed.
    pub fn new() -> (r: TimeoutReset)
        ensures
            r@ == (TimeoutView { flashing_init: false, flashing_started: false, timeout_timestamp: 0u32 }),
    {
        TimeoutReset { flashing_init: false, flashing_started: false, timeout_timestamp: 0 }
    }

    /// Disarm the handler and clear the timestamp.
    pub fn init(&mut self)
        ensures
            final(self)@ == (TimeoutView { flashing_init: false, flashing_started: false, timeout_timestamp: 0u32 }),
    {
        self.flashing_init = false;
        self.flashing_started = false;
        self.timeout_timestamp = 0;
    }

    /// Arm the timeout: a programming session was opened at `now_ms` and no
    /// download has begun.
    pub fn set_flashing_init(&mut self, now_ms: u32)
        ensures
            final(self)@ == timeout_armed(now_ms),
    {
        self.flashing_init = true;
        self.flashing_started = false;
        self.timeout_timestamp = now_ms;
    }

    /// Record that flashing has started: a download request arrived, so the
    /// inactivity timeout no longer applies.
    pub fn set_flashing_started(&mut self)
        ensures
            final(self)@ == (TimeoutView {
                flashing_started: true,
                ..old(self)@
            }),
    {
        self.flashing_started = true;
    }

    /// Whether a reset is required at `now_ms`: true exactly when the
    /// timeout is armed, no download has begun, and the timeout has elapsed.
    pub fn check(&self, now_ms: u32) -> (r: bool)
        ensures
            r == timeout_expired(self@, now_ms),
    {
        if self.flashing_init && !self.flashing_started {
            if now_ms.wrapping_sub(self.timeout_timestamp) >= CAN_RESET_TIMEOUT_MS {
                return true;
            }
        }
        false
    }
}

/// Arming and then waiting out the timeout without a download request makes
/// `check` demand a reset: for any arming time and any later reading of the
/// clock at least the timeout away, the expiry predicate holds.
pub proof fn lemma_inactivity_expires(armed_at_ms: u32, now_ms: u32)
    requires
        now_ms.wrapping_sub(armed_at_ms) >= CAN_RESET_TIMEOUT_MS,
    ensures
        timeout_expired(timeout_armed(armed_at_ms), now_ms),
{
}

} // verus!
