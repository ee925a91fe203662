//! Clock configuration for the S32K148.

use vstd::prelude::*;

verus! {

/// Mirror of the clock controller state for specifications.
pub struct ClockView {
    pub system_clock_hz: u32,
    pub xtal_freq_hz: u32,
}

/// Clock controller.
pub struct Clock {
    system_clock_hz: u32,
    xtal_freq_hz: u32,
}

impl View for Clock {
    type V = ClockView;

    closed spec fn view(&self) -> ClockView {
        ClockView { system_clock_hz: self.system_clock_hz, xtal_freq_hz: self.xtal_freq_hz }
    }
}

impl Clock {
    /// Create a new clock controller with the 16 MHz power-on defaults.
    pub fn new() -> (r: Clock)
        ensures
            r@ == (ClockView { system_clock_hz: 16_000_000u32, xtal_freq_hz: 16_000_000u32 }),
    {
        Clock { system_clock_hz: 16_000_000, xtal_freq_hz: 16_000_000 }
    }

    /// Initialize the clock system.  The SCG register sequence is platform
    /// bring-up and happens outside this library; the recorded frequencies do
    /// not change.
    pub fn init(&mut self)
        ensures
            *final(self) == *old(self),
    {
    }

    /// The system clock frequency in Hz.
    pub fn get_system_clock_hz(&self) -> (r: u32)
        ensures
            r == self@.system_clock_hz,
    {
        self.system_clock_hz
    }

    /// The crystal oscillator frequency in Hz.
    pub fn get_xtal_freq_hz(&self) -> (r: u32)
        ensures
            r == self@.xtal_freq_hz,
    {
        self.xtal_freq_hz
    }
}

} // verus!
