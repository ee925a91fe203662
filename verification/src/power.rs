//! Power management controller for the S32K148.

use vstd::prelude::*;

verus! {

/// Mirror of the power controller state for specifications.
pub struct PowerView {
    pub current_mode: PowerMode,
    pub reset_cause: ResetCause,
}

/// Power management controller.
pub struct Power {
    current_mode: PowerMode,
    reset_cause: ResetCause,
}

impl View for Power {
    type V = PowerView;

    closed spec fn view(&self) -> PowerView {
        PowerView { current_mode: self.current_mode, reset_cause: self.reset_cause }
    }
}

impl Power {
    /// Create a new power controller.
    pub fn new() -> (r: Power)
        ensures
            r@ == (PowerView { current_mode: PowerMode::Run, reset_cause: ResetCause::Unknown }),
    {
        Power { current_mode: PowerMode::Run, reset_cause: ResetCause::Unknown }
    }

    /// Initialize the power controller, recording the reset cause.
    pub fn init(&mut self)
        ensures
            final(self)@ == (PowerView { current_mode: old(self)@.current_mode, reset_cause: ResetCause::PowerOn }),
    {
        self.detect_reset_cause();
    }

    /// The cause of the last reset.
    pub fn get_reset_cause(&self) -> (r: ResetCause)
        ensures
            r == self@.reset_cause,
    {
        self.reset_cause
    }

    /// Request a power mode transition.  The SMC register write is platform
    /// work; the controller records the mode it asked for.
    pub fn set_power_mode(&mut self, mode: PowerMode) -> (r: Result<(), PowerError>)
        ensures
            r is Ok,
            final(self)@ == (PowerView { current_mode: mode, reset_cause: old(self)@.reset_cause }),
    {
        self.current_mode = mode;
        Ok(())
    }

    /// The current power mode.
    pub fn get_power_mode(&self) -> (r: PowerMode)
        ensures
            r == self@.current_mode,
    {
        self.current_mode
    }

    /// Detect the reset cause.  Reading the RCM status registers is platform
    /// work; power-on reset is reported until they are wired in.
    fn detect_reset_cause(&mut self)
        ensures
            final(self)@ == (PowerView { current_mode: old(self)@.current_mode, reset_cause: ResetCause::PowerOn }),
    {
        self.reset_cause = ResetCause::PowerOn;
    }
}

/// Power modes of the S32K148.
#[derive(Debug, Clone, Copy, PartialEq, Eq, Structural)]
pub enum PowerMode {
    Run,
    VeryLowPower,
    LowPower,
    Stop,
    VeryLowPowerStop,
}

/// Reset causes.
#[derive(Debug, Clone, Copy, PartialEq, Eq, Structural)]
pub enum ResetCause {
    Unknown,
    PowerOn,
    External,
    Watchdog,
    Software,
    Lockup,
    Jtag,
    LowVoltage,
}

impl ResetCause {
    /// The printable name of the reset cause.
    pub fn name(&self) -> (r: String)
        ensures
            self is Unknown ==> r@ == "Unknown"@,
            self is PowerOn ==> r@ == "PowerOn"@,
            self is External ==> r@ == "External"@,
            self is Watchdog ==> r@ == "Watchdog"@,
            self is Software ==> r@ == "Software"@,
            self is Lockup ==> r@ == "Lockup"@,
            self is Jtag ==> r@ == "Jtag"@,
            self is LowVoltage ==> r@ == "LowVoltage"@,
    {
        match self {
            ResetCause::Unknown => String::from_str("Unknown"),
            ResetCause::PowerOn => String::from_str("PowerOn"),
            ResetCause::External => String::from_str("External"),
            ResetCause::Watchdog => String::from_str("Watchdog"),
            ResetCause::Software => String::from_str("Software"),
            ResetCause::Lockup => String::from_str("Lockup"),
            ResetCause::Jtag => String::from_str("Jtag"),
            ResetCause::LowVoltage => String::from_str("LowVoltage"),
        }
    }
}

/// Power management error kinds.
#[derive(Debug, Clone, Copy, PartialEq, Eq, Structural)]
pub enum PowerError {
    InvalidMode,
    TransitionFailed,
}

} // verus!
