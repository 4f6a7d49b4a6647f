//! Shares of a whole, held exactly as the two integers they are made of.

use vstd::prelude::*;

verus! {

/// The whole, for a share that is measured in hundredths of a percent.
pub const FULL_SHARE: u32 = 10000;

/// An exact share: `part` of `whole`. In percent it is the ratio
/// `part / whole * 100`, of which nothing is cut or rounded here.
#[derive(Clone, Copy, Debug, PartialEq, Eq)]
pub struct Share {
    pub part: u64,
    pub whole: u64,
}

impl Share {
    /// The whole is not nothing, and the part is no larger than the whole.
    pub open spec fn valid(self) -> bool {
        self.whole > 0 && self.part <= self.whole
    }

    /// The share in percent is at least `bound`: `part / whole * 100 >=
    /// bound`, stated without the division.
    pub open spec fn percent_at_least(self, bound: int) -> bool {
        self.part * 100 >= bound * self.whole
    }

    /// The share in percent is at most `bound`: `part / whole * 100 <=
    /// bound`, stated without the division.
    pub open spec fn percent_at_most(self, bound: int) -> bool {
        self.part * 100 <= bound * self.whole
    }
}

/// The share that `part` has in `whole`. It is unknown where the whole is
/// zero and where the part is larger than the whole; where it is known, it
/// is the exact ratio of the two.
pub open spec fn share_of(part: u64, whole: u64) -> Option<Share> {
    if whole == 0 || part > whole {
        None
    } else {
        Some(Share { part, whole })
    }
}

/// A valid share lies between nothing and a hundred percent.
pub proof fn lemma_valid_share_in_range(s: Share)
    requires
        s.valid(),
    ensures
        s.percent_at_least(0),
        s.percent_at_most(100),
{
    assert(s.part * 100 <= 100 * s.whole) by (nonlinear_arith)
        requires
            s.part <= s.whole,
    ;
}

/// Whatever the two readings are: their share is known exactly where there
/// is a whole and the part is no larger than it; a known share is the ratio
/// of the very two readings, and it lies between nothing and a hundred
/// percent. Without a whole the share is unknown, never a number.
pub proof fn lemma_share_in_range(part: u64, whole: u64)
    ensures
        share_of(part, whole) is Some <==> (whole > 0 && part <= whole),
        share_of(part, 0) is None,
        share_of(part, whole) matches Some(s) ==> s.part == part && s.whole == whole && s.valid()
            && s.percent_at_least(0) && s.percent_at_most(100),
{
    if whole > 0 && part <= whole {
        lemma_valid_share_in_range(Share { part, whole });
    }
}

/// Computes the share of `part` in `whole`.
pub fn share(part: u64, whole: u64) -> (r: Option<Share>)
    ensures
        r == share_of(part, whole),
{
    if whole == 0 || part > whole {
        return None;
    }
    Some(Share { part, whole })
}

} // verus!
