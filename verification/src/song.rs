//! The song record served by the surrounding service, and the rule that
//! classifies how many rows a single-row mutation touched.

use vstd::prelude::*;

verus! {

/// One song row of the service's relational store.
#[derive(Debug, PartialEq)]
pub struct Song {
    pub id: i32,
    pub title: String,
    pub artist: String,
    pub spotify_track: String,
    pub content: String,
}

/// Classifies the row count of a mutation that must touch at most one row:
/// `Ok(true)` for exactly one row, `Ok(false)` for none, and the unexpected
/// count itself otherwise.
pub fn classify_row_count(n: u64) -> (r: Result<bool, u64>)
    ensures
        n == 1 ==> r == Ok::<bool, u64>(true),
        n == 0 ==> r == Ok::<bool, u64>(false),
        n > 1 ==> r == Err::<bool, u64>(n),
{
    if n == 1 {
        Ok(true)
    } else if n == 0 {
        Ok(false)
    } else {
        Err(n)
    }
}

} // verus!
