//! Peripheral marker types of the S32K148 platform.
//!
//! Each marker names one hardware block.  Register access and the system
//! reset routine are target code and live with the program embedding this
//! library.

use vstd::prelude::*;

verus! {

/// System Control Group (SCG) peripheral.
pub struct SCG;

/// GPIO peripheral.
pub struct GPIO;

/// PORT peripheral.
pub struct PORT;

/// Watchdog (WDOG) peripheral.
pub struct WDOG;

/// System Mode Controller (SMC) peripheral.
pub struct SMC;

/// Reset Control Module (RCM) peripheral.
pub struct RCM;

/// Power Management Controller (PMC) peripheral.
pub struct PMC;

/// System reset functionality.  The reset itself writes the ARM core
/// SYSRESETREQ bit and never returns, so it is issued by the embedding
/// program once the library has asked for it.
pub struct SystemReset;

} // verus!
