//! Validity windows over block heights.

use vstd::prelude::*;

verus! {

/// A window of block heights during which a restriction is in force.
///
/// A bound that is present is a plain height; the start of a window is
/// inclusive and its end exclusive. A window whose start is not below its end
/// is accepted and holds no height.
#[derive(Clone, Copy, Debug, PartialEq, Eq, Structural)]
pub enum BlockRange {
    /// The heights `start..end`: from `start` up to, but excluding, `end`.
    Range(u32, u32),
    /// The heights `start..`: from `start` onwards.
    RangeFrom(u32),
    /// The heights `..end`: every height below `end`.
    RangeTo(u32),
    /// Every height.
    RangeFull,
}

impl BlockRange {
    /// The heights of the window, as a predicate.
    pub open spec fn spec_contains(&self, height: u32) -> bool {
        match *self {
            BlockRange::Range(start, end) => start <= height && height < end,
            BlockRange::RangeFrom(start) => start <= height,
            BlockRange::RangeTo(end) => height < end,
            BlockRange::RangeFull => true,
        }
    }

    /// Returns `true` if `height` lies in the window.
    #[verifier::when_used_as_spec(spec_contains)]
    pub fn contains(&self, height: u32) -> (inside: bool)
        ensures
            inside == self.spec_contains(height),
    {
        match *self {
            BlockRange::Range(start, end) => start <= height && height < end,
            BlockRange::RangeFrom(start) => start <= height,
            BlockRange::RangeTo(end) => height < end,
            BlockRange::RangeFull => true,
        }
    }
}

} // verus!
