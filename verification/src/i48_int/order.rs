//! The order of [`i48`] values: that of the integers they hold, not that of their bit
//! patterns.
use super::i48;
use core::cmp::Ordering;
use vstd::prelude::*;
use vstd::std_specs::cmp::PartialOrdSpecImpl;

verus! {

/// How the integer `a` stands to the integer `b`.
pub open spec fn int_order(a: int, b: int) -> Ordering {
    if a < b {
        Ordering::Less
    } else if a > b {
        Ordering::Greater
    } else {
        Ordering::Equal
    }
}

impl i48 {
    /// How `self` stands to `other`.
    pub fn cmp(&self, other: &Self) -> (r: Ordering)
        ensures
            r == int_order(self@, other@),
    {
        let a = self.as_i64();
        let b = other.as_i64();
        if a < b {
            Ordering::Less
        } else if a > b {
            Ordering::Greater
        } else {
            Ordering::Equal
        }
    }
}

impl PartialOrdSpecImpl for i48 {
    open spec fn obeys_partial_cmp_spec() -> bool {
        true
    }

    open spec fn partial_cmp_spec(&self, other: &i48) -> Option<Ordering> {
        Some(int_order(self@, other@))
    }
}

impl PartialOrd for i48 {
    /// How `self` stands to `other`; any two values are comparable.
    fn partial_cmp(&self, other: &i48) -> (r: Option<Ordering>)
        ensures
            r == Some(int_order(self@, other@)),
    {
        Some(self.cmp(other))
    }
}

} // verus!
