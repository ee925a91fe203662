//! Hardware watchdog timer controller.
//!
//! The watchdog is the liveness timer of the main loop; the refresh sequence
//! written to the WDOG registers is platform work.  The controller tracks
//! whether the watchdog is enabled and the timeout it was configured with.

use vstd::prelude::*;

verus! {

/// Mirror of the watchdog state for specifications.
pub struct WatchdogView {
    pub timeout_ms: u32,
    pub enabled: bool,
}

/// Watchdog timer controller.
pub struct Watchdog {
    timeout_ms: u32,
    enabled: bool,
}

impl View for Watchdog {
    type V = WatchdogView;

    closed spec fn view(&self) -> WatchdogView {
        WatchdogView { timeout_ms: self.timeout_ms, enabled: self.enabled }
    }
}

impl Watchdog {
    /// Create a new watchdog controller with the one-second default timeout,
    /// not yet enabled.
    pub fn new() -> (r: Watchdog)
        ensures
            r@ == (WatchdogView { timeout_ms: 1000u32, enabled: false }),
    {
        Watchdog { timeout_ms: 1000, enabled: false }
    }

    /// Configure and enable the watchdog timer.
    pub fn init(&mut self)
        ensures
            final(self)@ == (WatchdogView { timeout_ms: old(self)@.timeout_ms, enabled: true }),
    {
        self.enabled = true;
    }

    /// Service (feed) the watchdog to prevent a reset.  The refresh sequence
    /// itself is platform work.
    pub fn service(&self) {
    }

    /// Disable the watchdog, where the configuration allows it.
    pub fn disable(&mut self) -> (r: Result<(), WatchdogError>)
        ensures
            r is Ok,
            final(self)@ == (WatchdogView { timeout_ms: old(self)@.timeout_ms, enabled: false }),
    {
        if self.enabled {
            self.enabled = false;
        }
        Ok(())
    }

    /// Configure the watchdog timeout.  Fails while the watchdog runs, and
    /// for timeouts outside 10..=10000 ms.
    pub fn set_timeout(&mut self, timeout_ms: u32) -> (r: Result<(), WatchdogError>)
        ensures
            old(self)@.enabled ==> r == Err::<(), WatchdogError>(WatchdogError::AlreadyEnabled)
                && *final(self) == *old(self),
            !old(self)@.enabled && (timeout_ms < 10 || timeout_ms > 10000)
                ==> r == Err::<(), WatchdogError>(WatchdogError::InvalidTimeout)
                    && *final(self) == *old(self),
            !old(self)@.enabled && 10 <= timeout_ms <= 10000
                ==> r is Ok
                    && final(self)@ == (WatchdogView { timeout_ms: timeout_ms, enabled: false }),
    {
        if self.enabled {
            return Err(WatchdogError::AlreadyEnabled);
        }
        if timeout_ms < 10 || timeout_ms > 10000 {
            return Err(WatchdogError::InvalidTimeout);
        }
        self.timeout_ms = timeout_ms;
        Ok(())
    }

    /// Whether the watchdog is enabled.
    pub fn is_enabled(&self) -> (r: bool)
        ensures
            r == self@.enabled,
    {
        self.enabled
    }
}

/// Watchdog error kinds.
#[derive(Debug, Clone, Copy, PartialEq, Eq, Structural)]
pub enum WatchdogError {
    AlreadyEnabled,
    InvalidTimeout,
    ConfigurationLocked,
}

} // verus!
