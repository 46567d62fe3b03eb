//! What this crate takes on trust from `std::time::Duration`.
//!
//! Verus knows the type but nothing of its methods. The two that a timeout
//! is read with get their contracts here. Neither contract is proved: each
//! says what the documentation of the standard library says.

use vstd::prelude::*;
use std::time::Duration;

verus! {

/// The number of whole seconds in a duration: what
/// `std::time::Duration::as_secs` returns for it.
pub uninterp spec fn seconds_of(d: Duration) -> u64;

/// The part of a duration below one second, in nanoseconds: what
/// `std::time::Duration::subsec_nanos` returns for it.
pub uninterp spec fn nanoseconds_of(d: Duration) -> u32;

/// Taken on trust of `std::time::Duration::as_secs`: what it returns depends
/// on the duration alone, and goes by the name [`seconds_of`].
pub assume_specification[ std::time::Duration::as_secs ](d: &Duration) -> (secs: u64)
    ensures
        secs == seconds_of(*d),
;

/// Taken on trust of `std::time::Duration::subsec_nanos`: what it returns
/// depends on the duration alone, goes by the name [`nanoseconds_of`], and is
/// a fraction of a second, that is, less than one thousand million.
pub assume_specification[ std::time::Duration::subsec_nanos ](d: &Duration) -> (nanos: u32)
    ensures
        nanos == nanoseconds_of(*d),
        nanos < 1_000_000_000,
;

} // verus!
