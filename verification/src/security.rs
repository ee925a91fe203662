//! UDS Security Access (service 0x27): the seed/key challenge that guards
//! the reprogramming services, with attempt throttling.
//!
//! Odd subfunctions request a seed, even subfunctions submit a key; this
//! bootloader serves level 1 (0x01 seed, 0x02 key).  The seed derives from a
//! rolling counter the caller passes in, XORed with a fixed mask, so it is
//! never the constant zero.  Once the attempt cap is reached, both seed and
//! key requests are refused until reset.

use vstd::prelude::*;
use crate::frame::{resp_bytes, resp_new, resp_push};
use crate::uds::{
    create_negative_response, negative_response, UDS_NRC_CONDITIONS_NOT_CORRECT,
    UDS_NRC_EXCEEDED_NUMBER_OF_ATTEMPTS, UDS_NRC_INVALID_KEY, UDS_NRC_SUB_FUNCTION_NOT_SUPPORTED,
    UDS_RSP_POSITIVE, UDS_SID_SECURITY_ACCESS, UDS_SUPPRESS_POSITIVE_RESPONSE,
};

verus! {

/// The supported security level.
pub const SECURITY_LEVEL_UNLOCKED: u8 = 0x01;

/// Mask XORed with the rolling counter to form a seed.
pub const SEED_MASK: u32 = 0xA5A5_A5A5;

/// Mask XORed with the seed on the way to the expected key.
pub const KEY_MASK: u32 = 0x5A5A_5A5A;

/// Mirror of the security state for specifications.
pub struct SecurityView {
    pub security_level: u8,
    pub unlocked: bool,
    pub failed_attempts: u8,
    pub max_failed_attempts: u8,
    pub last_seed: u32,
}

/// The seed derived from the rolling counter value `entropy`.
pub open spec fn spec_generate_seed(entropy: u32) -> u32 {
    entropy ^ SEED_MASK
}

/// The key expected for `seed`: XOR with the shared mask, rotated right by
/// three bits.
pub open spec fn spec_calculate_key(seed: u32) -> u32 {
    ((seed ^ KEY_MASK) >> 3) | ((seed ^ KEY_MASK) << 29)
}

/// One security-access exchange: the state after handling `data` (the
/// request payload without the service identifier) and the response bytes.
/// `entropy` is the rolling counter reading used for seed generation.
pub open spec fn security_step(v: SecurityView, data: Seq<u8>, entropy: u32) -> (SecurityView, Seq<u8>) {
    if data.len() == 0 {
        (v, negative_response(UDS_SID_SECURITY_ACCESS, UDS_NRC_SUB_FUNCTION_NOT_SUPPORTED))
    } else {
        let suppress = data[0] & UDS_SUPPRESS_POSITIVE_RESPONSE != 0;
        let subfunction = data[0] & 0x7F;
        if subfunction & 0x01 == 0x01 {
            security_seed_step(v, subfunction, suppress, entropy)
        } else {
            if data.len() < 5 {
                (v, negative_response(UDS_SID_SECURITY_ACCESS, UDS_NRC_CONDITIONS_NOT_CORRECT))
            } else {
                let key = (data[1] * 0x100_0000 + data[2] * 0x1_0000 + data[3] * 0x100 + data[4]) as u32;
                security_key_step(v, subfunction, suppress, key)
            }
        }
    }
}

/// The seed-request half of an exchange, after subfunction decoding.
pub open spec fn security_seed_step(v: SecurityView, subfunction: u8, suppress: bool, entropy: u32) -> (SecurityView, Seq<u8>) {
    if subfunction != SECURITY_LEVEL_UNLOCKED {
        (v, negative_response(UDS_SID_SECURITY_ACCESS, UDS_NRC_SUB_FUNCTION_NOT_SUPPORTED))
    } else if v.unlocked {
        // No challenge is in effect: answer with an all-zero seed.
        (v, if suppress { Seq::<u8>::empty() } else {
            seq![(UDS_SID_SECURITY_ACCESS + UDS_RSP_POSITIVE) as u8, subfunction, 0u8, 0u8, 0u8, 0u8]
        })
    } else if v.failed_attempts >= v.max_failed_attempts {
        (v, negative_response(UDS_SID_SECURITY_ACCESS, UDS_NRC_EXCEEDED_NUMBER_OF_ATTEMPTS))
    } else {
        let seed = spec_generate_seed(entropy);
        (
            SecurityView { last_seed: seed, ..v },
            if suppress { Seq::<u8>::empty() } else {
                seq![
                    (UDS_SID_SECURITY_ACCESS + UDS_RSP_POSITIVE) as u8,
                    subfunction,
                    (seed / 0x100_0000) as u8,
                    ((seed / 0x1_0000) % 0x100) as u8,
                    ((seed / 0x100) % 0x100) as u8,
                    (seed % 0x100) as u8,
                ]
            },
        )
    }
}

/// The key-submission half of an exchange, after subfunction decoding and
/// big-endian key extraction.
pub open spec fn security_key_step(v: SecurityView, subfunction: u8, suppress: bool, key: u32) -> (SecurityView, Seq<u8>) {
    if subfunction != SECURITY_LEVEL_UNLOCKED + 1 {
        (v, negative_response(UDS_SID_SECURITY_ACCESS, UDS_NRC_SUB_FUNCTION_NOT_SUPPORTED))
    } else if v.unlocked {
        (v, if suppress { Seq::<u8>::empty() } else {
            seq![(UDS_SID_SECURITY_ACCESS + UDS_RSP_POSITIVE) as u8, subfunction]
        })
    } else if v.failed_attempts >= v.max_failed_attempts {
        (v, negative_response(UDS_SID_SECURITY_ACCESS, UDS_NRC_EXCEEDED_NUMBER_OF_ATTEMPTS))
    } else if key == spec_calculate_key(v.last_seed) {
        (
            SecurityView {
                unlocked: true,
                security_level: SECURITY_LEVEL_UNLOCKED,
                failed_attempts: 0,
                ..v
            },
            if suppress { Seq::<u8>::empty() } else {
                seq![(UDS_SID_SECURITY_ACCESS + UDS_RSP_POSITIVE) as u8, subfunction]
            },
        )
    } else {
        (
            SecurityView { failed_attempts: (v.failed_attempts + 1) as u8, ..v },
            negative_response(UDS_SID_SECURITY_ACCESS, UDS_NRC_INVALID_KEY),
        )
    }
}

/// UDS Security Access handler.
pub struct SecurityAccess {
    security_level: u8,
    unlocked: bool,
    failed_attempts: u8,
    max_failed_attempts: u8,
    last_seed: u32,
}

impl View for SecurityAccess {
    type V = SecurityView;

    closed spec fn view(&self) -> SecurityView {
        SecurityView {
            security_level: self.security_level,
            unlocked: self.unlocked,
            failed_attempts: self.failed_attempts,
            max_failed_attempts: self.max_failed_attempts,
            last_seed: self.last_seed,
        }
    }
}

/// The well-formed security states: locked with a three-attempt cap never
/// overrun by the counter.
pub open spec fn security_wf(v: SecurityView) -> bool {
    v.max_failed_attempts == 3 && v.failed_attempts <= v.max_failed_attempts
}

impl SecurityAccess {
    /// Create a new security access handler: locked, no failed attempts, a
    /// cap of three.
    pub fn new() -> (r: SecurityAccess)
        ensures
            r@ == (SecurityView {
                security_level: 0u8,
                unlocked: false,
                failed_attempts: 0u8,
                max_failed_attempts: 3u8,
                last_seed: 0u32,
            }),
            security_wf(r@),
    {
        SecurityAccess {
            security_level: 0,
            unlocked: false,
            failed_attempts: 0,
            max_failed_attempts: 3,
            last_seed: 0,
        }
    }

    /// Relock and clear the attempt counter and the stored seed.
    pub fn init(&mut self)
        ensures
            final(self)@ == (SecurityView {
                security_level: 0u8,
                unlocked: false,
                failed_attempts: 0u8,
                max_failed_attempts: old(self)@.max_failed_attempts,
                last_seed: 0u32,
            }),
    {
        self.security_level = 0;
        self.unlocked = false;
        self.failed_attempts = 0;
        self.last_seed = 0;
    }

    /// Handle one security access request.  `data` is the payload after the
    /// service identifier; `entropy` is the rolling counter reading for seed
    /// generation.
    pub fn handle_security_access(&mut self, data: &[u8], entropy: u32) -> (r: heapless::Vec<u8, 64>)
        requires
            security_wf(old(self)@),
        ensures
            security_wf(final(self)@),
            final(self)@ == security_step(old(self)@, data@, entropy).0,
            resp_bytes(r) == security_step(old(self)@, data@, entropy).1,
    {
        if data.len() == 0 {
            return create_negative_response(
                UDS_SID_SECURITY_ACCESS,
                UDS_NRC_SUB_FUNCTION_NOT_SUPPORTED,
            );
        }
        let suppress = data[0] & UDS_SUPPRESS_POSITIVE_RESPONSE != 0;
        let subfunction = data[0] & 0x7F;
        if subfunction & 0x01 == 0x01 {
            self.handle_seed_request(subfunction, suppress, entropy)
        } else {
            if data.len() < 5 {
                return create_negative_response(
                    UDS_SID_SECURITY_ACCESS,
                    UDS_NRC_CONDITIONS_NOT_CORRECT,
                );
            }
            let key = (data[1] as u32) * 0x100_0000 + (data[2] as u32) * 0x1_0000
                + (data[3] as u32) * 0x100 + (data[4] as u32);
            self.handle_key_verification(subfunction, suppress, key)
        }
    }

    /// Handle a seed request at the decoded subfunction.
    fn handle_seed_request(&mut self, subfunction: u8, suppress: bool, entropy: u32) -> (r: heapless::Vec<u8, 64>)
        requires
            security_wf(old(self)@),
        ensures
            security_wf(final(self)@),
            final(self)@ == security_seed_step(old(self)@, subfunction, suppress, entropy).0,
            resp_bytes(r) == security_seed_step(old(self)@, subfunction, suppress, entropy).1,
    {
        if subfunction != SECURITY_LEVEL_UNLOCKED {
            return create_negative_response(
                UDS_SID_SECURITY_ACCESS,
                UDS_NRC_SUB_FUNCTION_NOT_SUPPORTED,
            );
        }
        if self.unlocked {
            // Already unlocked: no challenge is in effect, answer all-zero.
            let mut response = resp_new();
            if !suppress {
                resp_push(&mut response, UDS_SID_SECURITY_ACCESS + UDS_RSP_POSITIVE);
                resp_push(&mut response, subfunction);
                resp_push(&mut response, 0);
                resp_push(&mut response, 0);
                resp_push(&mut response, 0);
                resp_push(&mut response, 0);
                proof {
                    assert(resp_bytes(response) =~= security_seed_step(
                        old(self)@, subfunction, suppress, entropy,
                    ).1);
                }
            }
            return response;
        }
        if self.failed_attempts >= self.max_failed_attempts {
            return create_negative_response(
                UDS_SID_SECURITY_ACCESS,
                UDS_NRC_EXCEEDED_NUMBER_OF_ATTEMPTS,
            );
        }
        let seed = self.generate_seed(entropy);
        self.last_seed = seed;
        let mut response = resp_new();
        if !suppress {
            resp_push(&mut response, UDS_SID_SECURITY_ACCESS + UDS_RSP_POSITIVE);
            resp_push(&mut response, subfunction);
            // Seed bytes, big-endian.
            resp_push(&mut response, (seed >> 24) as u8);
            resp_push(&mut response, ((seed >> 16) & 0xFF) as u8);
            resp_push(&mut response, ((seed >> 8) & 0xFF) as u8);
            resp_push(&mut response, (seed & 0xFF) as u8);
            proof {
                assert(seed >> 24 == seed / 0x100_0000) by (bit_vector);
                assert((seed >> 16) & 0xFF == (seed / 0x1_0000) % 0x100) by (bit_vector);
                assert((seed >> 8) & 0xFF == (seed / 0x100) % 0x100) by (bit_vector);
                assert(seed & 0xFF == seed % 0x100) by (bit_vector);
                assert(seed / 0x100_0000 <= 0xFF);
                assert(resp_bytes(response) =~= security_seed_step(
                    old(self)@, subfunction, suppress, entropy,
                ).1);
            }
        }
        response
    }

    /// Handle a key submission at the decoded subfunction.
    fn handle_key_verification(&mut self, subfunction: u8, suppress: bool, key: u32) -> (r: heapless::Vec<u8, 64>)
        requires
            security_wf(old(self)@),
        ensures
            security_wf(final(self)@),
            final(self)@ == security_key_step(old(self)@, subfunction, suppress, key).0,
            resp_bytes(r) == security_key_step(old(self)@, subfunction, suppress, key).1,
    {
        if subfunction != SECURITY_LEVEL_UNLOCKED + 1 {
            return create_negative_response(
                UDS_SID_SECURITY_ACCESS,
                UDS_NRC_SUB_FUNCTION_NOT_SUPPORTED,
            );
        }
        if self.unlocked {
            let mut response = resp_new();
            if !suppress {
                resp_push(&mut response, UDS_SID_SECURITY_ACCESS + UDS_RSP_POSITIVE);
                resp_push(&mut response, subfunction);
                proof {
                    assert(resp_bytes(response) =~= security_key_step(
                        old(self)@, subfunction, suppress, key,
                    ).1);
                }
            }
            return response;
        }
        if self.failed_attempts >= self.max_failed_attempts {
            return create_negative_response(
                UDS_SID_SECURITY_ACCESS,
                UDS_NRC_EXCEEDED_NUMBER_OF_ATTEMPTS,
            );
        }
        let expected_key = self.calculate_key(self.last_seed);
        if key == expected_key {
            self.unlocked = true;
            self.security_level = SECURITY_LEVEL_UNLOCKED;
            self.failed_attempts = 0;
            let mut response = resp_new();
            if !suppress {
                resp_push(&mut response, UDS_SID_SECURITY_ACCESS + UDS_RSP_POSITIVE);
                resp_push(&mut response, subfunction);
                proof {
                    assert(resp_bytes(response) =~= security_key_step(
                        old(self)@, subfunction, suppress, key,
                    ).1);
                }
            }
            response
        } else {
            self.failed_attempts = self.failed_attempts + 1;
            create_negative_response(UDS_SID_SECURITY_ACCESS, UDS_NRC_INVALID_KEY)
        }
    }

    /// Derive a seed from the rolling counter value.
    pub fn generate_seed(&self, entropy: u32) -> (r: u32)
        ensures
            r == spec_generate_seed(entropy),
    {
        entropy ^ SEED_MASK
    }

    /// The key expected for `seed`: the algorithm shared with the tester.
    pub fn calculate_key(&self, seed: u32) -> (r: u32)
        ensures
            r == spec_calculate_key(seed),
    {
        let key = seed ^ KEY_MASK;
        (key >> 3) | (key << 29)
    }

    /// Whether security access is unlocked.
    pub fn is_unlocked(&self) -> (r: bool)
        ensures
            r == self@.unlocked,
    {
        self.unlocked
    }
}

/// A wrong key below the attempt cap is refused with `invalid key` and
/// counts against the cap; state changes in no other way.
pub proof fn lemma_wrong_key_counted(v: SecurityView, suppress: bool, key: u32)
    requires
        security_wf(v),
        !v.unlocked,
        v.failed_attempts < v.max_failed_attempts,
        key != spec_calculate_key(v.last_seed),
    ensures
        security_key_step(v, (SECURITY_LEVEL_UNLOCKED + 1) as u8, suppress, key).0
            == (SecurityView { failed_attempts: (v.failed_attempts + 1) as u8, ..v }),
        security_key_step(v, (SECURITY_LEVEL_UNLOCKED + 1) as u8, suppress, key).1
            == negative_response(UDS_SID_SECURITY_ACCESS, UDS_NRC_INVALID_KEY),
{
}

/// The security state after a run of key submissions.
pub open spec fn run_key_submissions(v: SecurityView, keys: Seq<u32>) -> SecurityView
    decreases keys.len(),
{
    if keys.len() == 0 {
        v
    } else {
        run_key_submissions(
            security_key_step(v, (SECURITY_LEVEL_UNLOCKED + 1) as u8, false, keys[0]).0,
            keys.drop_first(),
        )
    }
}

/// Enough consecutive wrong keys lock the system: a locked state fed at
/// least as many wrong keys as attempts remain under the cap ends exactly
/// at the cap, still locked and with the challenge unchanged — the state
/// from which every seed and key request is refused.
pub proof fn lemma_consecutive_wrong_keys_lock(v: SecurityView, keys: Seq<u32>)
    requires
        security_wf(v),
        !v.unlocked,
        forall|i: int| 0 <= i < keys.len() ==> keys[i] != spec_calculate_key(v.last_seed),
        v.failed_attempts + keys.len() >= v.max_failed_attempts,
    ensures
        ({
            let w = run_key_submissions(v, keys);
            &&& security_wf(w)
            &&& !w.unlocked
            &&& w.failed_attempts == w.max_failed_attempts
            &&& w.max_failed_attempts == v.max_failed_attempts
            &&& w.last_seed == v.last_seed
        }),
    decreases keys.len(),
{
    if keys.len() > 0 {
        let v1 = security_key_step(v, (SECURITY_LEVEL_UNLOCKED + 1) as u8, false, keys[0]).0;
        assert(v1.last_seed == v.last_seed);
        assert(forall|i: int|
            0 <= i < keys.drop_first().len() ==> #[trigger] keys.drop_first()[i]
                != spec_calculate_key(v1.last_seed));
        lemma_consecutive_wrong_keys_lock(v1, keys.drop_first());
    }
}

/// Once the attempt cap is reached without an unlock, both halves of the
/// challenge are refused with `exceeded number of attempts`, whatever the
/// seed entropy or the submitted key, and the state no longer changes.
pub proof fn lemma_attempts_exhausted_locks_out(v: SecurityView, suppress: bool, entropy: u32, key: u32)
    requires
        security_wf(v),
        !v.unlocked,
        v.failed_attempts >= v.max_failed_attempts,
    ensures
        security_seed_step(v, SECURITY_LEVEL_UNLOCKED, suppress, entropy)
            == (v, negative_response(UDS_SID_SECURITY_ACCESS, UDS_NRC_EXCEEDED_NUMBER_OF_ATTEMPTS)),
        security_key_step(v, (SECURITY_LEVEL_UNLOCKED + 1) as u8, suppress, key)
            == (v, negative_response(UDS_SID_SECURITY_ACCESS, UDS_NRC_EXCEEDED_NUMBER_OF_ATTEMPTS)),
{
}

} // verus!
