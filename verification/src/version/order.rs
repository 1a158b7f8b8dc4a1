//! The order of contract versions as the comparison operators see it: by
//! major first, then by minor.

use std::cmp::Ordering;
use vstd::prelude::*;
use vstd::std_specs::cmp::{PartialOrdSpec, PartialOrdSpecImpl};

use super::{version_le, ContractVersion};

verus! {

impl PartialOrd for ContractVersion {
    fn partial_cmp(&self, other: &Self) -> (r: Option<Ordering>) {
        if self.major < other.major {
            Some(Ordering::Less)
        } else if self.major > other.major {
            Some(Ordering::Greater)
        } else if self.minor < other.minor {
            Some(Ordering::Less)
        } else if self.minor > other.minor {
            Some(Ordering::Greater)
        } else {
            Some(Ordering::Equal)
        }
    }
}

impl PartialOrdSpecImpl for ContractVersion {
    open spec fn obeys_partial_cmp_spec() -> bool {
        true
    }

    open spec fn partial_cmp_spec(&self, other: &Self) -> Option<Ordering> {
        if *self == *other {
            Some(Ordering::Equal)
        } else if version_le(*self, *other) {
            Some(Ordering::Less)
        } else {
            Some(Ordering::Greater)
        }
    }
}

/// The comparison operators order versions by major first and, within one
/// major, by minor; every two versions compare.
pub proof fn comparison_is_major_then_minor(a: ContractVersion, b: ContractVersion)
    ensures
        PartialOrdSpec::partial_cmp_spec(&a, &b) == Some(Ordering::Less) <==> (a.major < b.major
            || (a.major == b.major && a.minor < b.minor)),
        PartialOrdSpec::partial_cmp_spec(&a, &b) == Some(Ordering::Equal) <==> a == b,
        PartialOrdSpec::partial_cmp_spec(&a, &b) == Some(Ordering::Greater)
            <==> PartialOrdSpec::partial_cmp_spec(&b, &a) == Some(Ordering::Less),
{
}

} // verus!
