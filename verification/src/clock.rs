//! The wall clock.
//!
//! Push and pull stamp their results with the current time. The engine
//! itself takes the instant as an argument; this wrapper is how the
//! convenience entry points obtain it.

use vstd::prelude::*;

verus! {

/// Relies on `chrono::Utc::now`: nothing is promised of the clock's value.
#[verifier::external_body]
pub fn now_micros() -> i64 {
    chrono::Utc::now().timestamp_micros()
}

} // verus!
