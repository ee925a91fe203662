//! UDS ECU Reset (service 0x11).
//!
//! A reset request is answered first and performed afterwards, so the
//! handler reports whether a system reset is due; the embedding program
//! transmits the response and then pulls the reset line.

use vstd::prelude::*;
use crate::frame::{resp_bytes, resp_new, resp_push};
use crate::uds::{
    create_negative_response, negative_response, UDS_NRC_SUB_FUNCTION_NOT_SUPPORTED,
    UDS_RESET_HARD, UDS_RESET_SOFT, UDS_RSP_POSITIVE, UDS_SID_ECU_RESET,
    UDS_SUPPRESS_POSITIVE_RESPONSE,
};

verus! {

/// One ECU reset exchange: the response bytes and whether a system reset is
/// due after the response is out.
pub open spec fn ecu_reset_step(data: Seq<u8>) -> (Seq<u8>, bool) {
    if data.len() == 0 {
        (negative_response(UDS_SID_ECU_RESET, UDS_NRC_SUB_FUNCTION_NOT_SUPPORTED), false)
    } else {
        let suppress = data[0] & UDS_SUPPRESS_POSITIVE_RESPONSE != 0;
        let reset_type = data[0] & 0x7F;
        if reset_type == UDS_RESET_HARD || reset_type == UDS_RESET_SOFT {
            (
                if suppress {
                    Seq::<u8>::empty()
                } else {
                    seq![(UDS_SID_ECU_RESET + UDS_RSP_POSITIVE) as u8, reset_type]
                },
                true,
            )
        } else {
            (negative_response(UDS_SID_ECU_RESET, UDS_NRC_SUB_FUNCTION_NOT_SUPPORTED), false)
        }
    }
}

/// UDS services handler.
pub struct UdsServices {
}

impl UdsServices {
    /// Create a new services handler.
    pub fn new() -> (r: UdsServices) {
        UdsServices {}
    }

    /// Initialize the services handler.
    pub fn init(&mut self)
        ensures
            *final(self) == *old(self),
    {
    }

    /// Handle an ECU reset request.  Returns the response and whether the
    /// system reset is due once the response has been dispatched.
    pub fn handle_ecu_reset(&self, data: &[u8]) -> (r: (heapless::Vec<u8, 64>, bool))
        ensures
            resp_bytes(r.0) == ecu_reset_step(data@).0,
            r.1 == ecu_reset_step(data@).1,
    {
        if data.len() == 0 {
            return (
                create_negative_response(UDS_SID_ECU_RESET, UDS_NRC_SUB_FUNCTION_NOT_SUPPORTED),
                false,
            );
        }
        let suppress = data[0] & UDS_SUPPRESS_POSITIVE_RESPONSE != 0;
        let reset_type = data[0] & 0x7F;
        if reset_type == UDS_RESET_HARD || reset_type == UDS_RESET_SOFT {
            let mut response = resp_new();
            if !suppress {
                resp_push(&mut response, UDS_SID_ECU_RESET + UDS_RSP_POSITIVE);
                resp_push(&mut response, reset_type);
                proof {
                    assert(resp_bytes(response) =~= ecu_reset_step(data@).0);
                }
            }
            // The reset itself follows the response: report it as due.
            (response, true)
        } else {
            (
                create_negative_response(UDS_SID_ECU_RESET, UDS_NRC_SUB_FUNCTION_NOT_SUPPORTED),
                false,
            )
        }
    }
}

} // verus!
