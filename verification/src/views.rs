//! Small view helpers.

use vstd::prelude::*;

verus! {

/// An optional machine integer, seen as an optional mathematical one.
pub open spec fn opt_i32_view(o: Option<i32>) -> Option<int> {
    match o {
        Some(v) => Some(v as int),
        None => None,
    }
}

} // verus!
