//! Reading the wall clock.
//!
//! Instants everywhere in the library are whole seconds since the epoch. The
//! clock is read here and nowhere else; every other function takes an instant
//! as an argument and is verified for every value of it.

use vstd::prelude::*;

verus! {

/// Relies on chrono's `Local::now` and `DateTime::timestamp` for the current
/// wall-clock time as whole seconds since the epoch. Nothing is assumed of
/// the value: the clock may move arbitrarily between two reads.
#[verifier::external_body]
pub(crate) fn now_seconds() -> i64 {
    chrono::Local::now().timestamp()
}

} // verus!
