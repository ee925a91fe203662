//! Serial (UART) communication interface.
//!
//! The UART registers are platform work.  The interface tracks whether it
//! was initialized and polices every operation on that state, as the wire
//! side does before the platform layer is wired in: sends are accepted and
//! handed to the platform, and no received byte is pending.

use vstd::prelude::*;

verus! {

/// UART baudrate in bits per second.
pub const UART_BAUDRATE: u32 = 115_200;

/// Mirror of the serial interface state for specifications.
pub struct SerialView {
    pub initialized: bool,
}

/// Serial interface.
pub struct Serial {
    initialized: bool,
}

impl View for Serial {
    type V = SerialView;

    closed spec fn view(&self) -> SerialView {
        SerialView { initialized: self.initialized }
    }
}

impl Serial {
    /// Create a new serial interface, not yet initialized.
    pub fn new() -> (r: Serial)
        ensures
            r@ == (SerialView { initialized: false }),
    {
        Serial { initialized: false }
    }

    /// Initialize the serial interface.
    pub fn init(&mut self)
        ensures
            final(self)@ == (SerialView { initialized: true }),
    {
        self.initialized = true;
    }

    /// Send a single byte.  Refused until the interface is initialized.
    pub fn send_byte(&self, byte: u8) -> (r: Result<(), SerialError>)
        ensures
            r is Ok <==> self@.initialized,
            r is Err ==> r == Err::<(), SerialError>(SerialError::NotInitialized),
    {
        let _ = byte;
        if !self.initialized {
            return Err(SerialError::NotInitialized);
        }
        Ok(())
    }

    /// Send a sequence of bytes, one at a time.
    pub fn send(&self, data: &[u8]) -> (r: Result<(), SerialError>)
        ensures
            r is Ok <==> self@.initialized,
            r is Err ==> r == Err::<(), SerialError>(SerialError::NotInitialized),
    {
        if !self.initialized {
            return Err(SerialError::NotInitialized);
        }
        let mut i: usize = 0;
        while i < data.len()
            invariant
                self@.initialized,
            decreases data.len() - i,
        {
            match self.send_byte(data[i]) {
                Ok(()) => {}
                Err(e) => {
                    return Err(e);
                }
            }
            i = i + 1;
        }
        Ok(())
    }

    /// Send the bytes of a string.
    pub fn send_str(&self, s: &str) -> (r: Result<(), SerialError>)
        ensures
            r is Ok <==> self@.initialized,
            r is Err ==> r == Err::<(), SerialError>(SerialError::NotInitialized),
    {
        let bytes = s.as_bytes_vec();
        self.send(bytes.as_slice())
    }

    /// Poll for a received byte.  The receive register is platform work; no
    /// byte is pending at the library's level.
    pub fn receive_byte(&self) -> (r: Option<u8>)
        ensures
            r is None,
    {
        if !self.initialized {
            return None;
        }
        None
    }

    /// Poll for received data within a timeout.  As with single bytes, no
    /// data is pending at the library's level.
    pub fn receive_timeout(&self, timeout_ms: u32) -> (r: Option<heapless::Vec<u8, 64>>)
        ensures
            r is None,
    {
        let _ = timeout_ms;
        if !self.initialized {
            return None;
        }
        None
    }
}

/// Serial error kinds.
#[derive(Debug, Clone, Copy, PartialEq, Eq, Structural)]
pub enum SerialError {
    NotInitialized,
    TransmitError,
    ReceiveError,
}

} // verus!
