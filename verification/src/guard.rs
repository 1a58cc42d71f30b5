//! Sanity window for watermarks.

use vstd::prelude::*;

verus! {

/// Timestamps at or below this value are never accepted as a watermark.
pub const TIMESTAMP_MIN: u64 = 100;

/// Timestamps above this value are taken to be absurdly far in the future.
pub const TIMESTAMP_MAX: u64 = 1764601526;

/// A timestamp that lies outside the accepted window.
#[derive(Debug, Clone, Copy, PartialEq, Eq, Structural)]
pub struct InvalidTimestamp {
    /// The rejected value, in seconds since the Unix epoch.
    pub since: u64,
}

/// Whether `since` may be trusted as a watermark.
pub open spec fn timestamp_valid(since: u64) -> bool {
    TIMESTAMP_MIN < since <= TIMESTAMP_MAX
}

/// Accepts `since` when it lies inside the window, and reports it otherwise.
pub fn check_timestamp(since: &u64) -> (r: Result<(), InvalidTimestamp>)
    ensures
        timestamp_valid(*since) <==> r is Ok,
        r matches Err(e) ==> e.since == *since,
{
    if *since > TIMESTAMP_MAX {
        return Err(InvalidTimestamp { since: *since });
    }
    if *since <= TIMESTAMP_MIN {
        return Err(InvalidTimestamp { since: *since });
    }
    Ok(())
}

} // verus!
