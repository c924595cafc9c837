use vstd::prelude::*;

verus! {

/// A point of logical time as the hosting environment reports it.
#[derive(PartialEq, Eq, Structural, Clone, Copy, Debug)]
pub struct LogicalTime {
    /// block height
    pub height: u64,
    /// time in seconds
    pub time: u64,
}

/// When a grant or a pledge runs out.
#[derive(PartialEq, Eq, Structural, Clone, Copy, Debug)]
pub enum Expiration {
    /// expires once the block height reaches this value
    AtHeight(u64),
    /// expires once the time reaches this value, in seconds
    AtTime(u64),
    /// never expires
    Never,
}

/// Whether `e` has elapsed at `now`: a bound is reached once the current
/// height or time is at or past it.
pub open spec fn expired_at(e: Expiration, now: LogicalTime) -> bool {
    match e {
        Expiration::AtHeight(h) => now.height >= h,
        Expiration::AtTime(t) => now.time >= t,
        Expiration::Never => false,
    }
}

impl Expiration {
    /// Returns true if this expiration has elapsed at `now`.
    pub fn is_expired(&self, now: &LogicalTime) -> (r: bool)
        ensures
            r == expired_at(*self, *now),
    {
        match self {
            Expiration::AtHeight(h) => now.height >= *h,
            Expiration::AtTime(t) => now.time >= *t,
            Expiration::Never => false,
        }
    }
}

} // verus!
