//! Memory fences between the device's accesses to the rings and the
//! guest's.

use std::sync::atomic::fence;
use std::sync::atomic::Ordering;
use vstd::prelude::*;

verus! {

/// `std::sync::atomic::fence` with release ordering: what was written
/// before it is visible to the guest before what is written after it.
#[verifier::external_body]
pub(crate) fn release_fence() {
    fence(Ordering::Release)
}

/// `std::sync::atomic::fence` with sequentially consistent ordering: what
/// is read after it is no older than what the guest had written before it.
#[verifier::external_body]
pub(crate) fn full_fence() {
    fence(Ordering::SeqCst)
}

} // verus!
