//! The root of the query schema that the surrounding service exposes.

use vstd::prelude::*;

verus! {

/// Root object of the service's query schema.
#[derive(Clone, Copy, Debug, PartialEq, Eq, Structural)]
pub struct Query;

impl Query {
    /// Adds `a` and twice `b`.
    pub fn add(a: i32, b: i32) -> (r: i32)
        requires
            i32::MIN <= b * 2 <= i32::MAX,
            i32::MIN <= a + b * 2 <= i32::MAX,
        ensures
            r == a + b * 2,
    {
        a + b * 2
    }
}

} // verus!
