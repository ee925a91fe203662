//! Reflash bootloader core for an automotive telematics ECU.
//!
//! The crate holds the decision logic of the bootloader: the UDS programming
//! session state machine, security access, download sequencing, the flash
//! write engine with its checksum seal, the inactivity timeout, and the boot
//! validity check.  The flash device is modelled as owned memory; platform
//! work (bus reception, the vector-table jump, the system reset) is performed
//! by the surrounding program, which feeds frames and the millisecond clock in
//! and carries responses and reset requests out.

pub mod bootloader;
pub mod can;
pub mod clock;
pub mod flash;
pub mod frame;
pub mod gpio;
pub mod peripherals;
pub mod power;
pub mod security;
pub mod serial;
pub mod services;
pub mod session;
pub mod timeout;
pub mod transfer;
pub mod uds;
pub mod verification;
pub mod watchdog;
pub mod xcp;
