//! Bounded byte buffers for bus frames and service responses.
//!
//! The transport delivers at most eight payload bytes per frame and the
//! service layer answers with short responses, so both sides use the bounded
//! vectors of the `heapless` crate, as fits a bootloader that owns no heap.
//! The vector type is declared to the verifier here, together with the spec
//! function naming its contents and the two operations the service layer
//! performs on a response buffer.

use vstd::prelude::*;

verus! {

/// Capacity of a service response buffer, in bytes.
pub const RESPONSE_CAPACITY: usize = 64;

#[verifier::external_type_specification]
#[verifier::external_body]
#[verifier::reject_recursive_types(T)]
pub struct ExHeaplessVec<T, const N: usize>(heapless::Vec<T, N>);

/// Relies on heapless::Vec::clone; nothing is assumed of the copy.
pub assume_specification<T, const N: usize>[ <heapless::Vec<T, N> as core::clone::Clone>::clone ](
    v: &heapless::Vec<T, N>,
) -> heapless::Vec<T, N>
    where
        T: core::clone::Clone,
;

/// The bytes held by a response buffer, in order.
pub uninterp spec fn resp_bytes(v: heapless::Vec<u8, 64>) -> Seq<u8>;

/// Relies on heapless::Vec::new: a fresh vector holds no elements.
#[verifier::external_body]
pub(crate) fn resp_new() -> (r: heapless::Vec<u8, 64>)
    ensures
        resp_bytes(r) == Seq::<u8>::empty(),
{
    heapless::Vec::new()
}

/// Relies on heapless::Vec::push: below capacity, it appends the element and
/// returns Ok.
#[verifier::external_body]
pub(crate) fn resp_push(v: &mut heapless::Vec<u8, 64>, byte: u8)
    requires
        resp_bytes(*old(v)).len() < RESPONSE_CAPACITY,
    ensures
        resp_bytes(*final(v)) == resp_bytes(*old(v)).push(byte),
{
    let _ = v.push(byte);
}

} // verus!
