//! The order of release versions as `<` and `partial_cmp` see it.

use vstd::prelude::*;
use vstd::std_specs::cmp::PartialOrdSpecImpl;
use core::cmp::Ordering;
use crate::version::{release_order, ReleaseVersion};

verus! {

/// The ordering that a three-way result `-1`, `0` or `1` stands for.
pub open spec fn ordering_of(r: int) -> Ordering {
    if r < 0 {
        Ordering::Less
    } else if r == 0 {
        Ordering::Equal
    } else {
        Ordering::Greater
    }
}

impl PartialOrd for ReleaseVersion {
    fn partial_cmp(&self, other: &ReleaseVersion) -> (r: Option<Ordering>) {
        let c = self.compare(other);
        if c < 0 {
            Some(Ordering::Less)
        } else if c == 0 {
            Some(Ordering::Equal)
        } else {
            Some(Ordering::Greater)
        }
    }
}

impl PartialOrdSpecImpl for ReleaseVersion {
    open spec fn obeys_partial_cmp_spec() -> bool {
        true
    }

    open spec fn partial_cmp_spec(&self, other: &ReleaseVersion) -> Option<Ordering> {
        Some(ordering_of(release_order(self@, other@)))
    }
}

impl ReleaseVersion {
    /// The total order of release versions: base `A.B.C` first, then a
    /// pre-release below the release, then the community revision, then
    /// the SemVer order of the rest.
    pub fn cmp(&self, other: &ReleaseVersion) -> (r: Ordering)
        ensures
            r == ordering_of(release_order(self@, other@)),
    {
        let c = self.compare(other);
        if c < 0 {
            Ordering::Less
        } else if c == 0 {
            Ordering::Equal
        } else {
            Ordering::Greater
        }
    }
}

} // verus!
