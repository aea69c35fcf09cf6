//! The order of [`Fract`] and [`FixedPoint`] values: that of their counts of steps,
//! which is that of the numbers they stand for.
use super::FixedPoint;
use super::Fract;
use crate::i48_int::order::int_order;
use core::cmp::Ordering;
use vstd::prelude::*;
use vstd::std_specs::cmp::PartialOrdSpecImpl;

verus! {

impl Fract {
    /// Whether `self` is below `other`.
    pub fn const_lt(&self, other: Self) -> (r: bool)
        ensures
            r == (self@ < other@),
    {
        self.0 < other.0
    }

    /// Whether `self` is not above `other`.
    pub fn const_le(&self, other: Self) -> (r: bool)
        ensures
            r == (self@ <= other@),
    {
        self.0 <= other.0
    }

    /// Whether `self` is above `other`.
    pub fn const_gt(&self, other: Self) -> (r: bool)
        ensures
            r == (self@ > other@),
    {
        self.0 > other.0
    }

    /// Whether `self` is not below `other`.
    pub fn const_ge(&self, other: Self) -> (r: bool)
        ensures
            r == (self@ >= other@),
    {
        self.0 >= other.0
    }
}

impl PartialOrdSpecImpl for Fract {
    open spec fn obeys_partial_cmp_spec() -> bool {
        true
    }

    open spec fn partial_cmp_spec(&self, other: &Fract) -> Option<Ordering> {
        Some(int_order(self@, other@))
    }
}

impl PartialOrd for Fract {
    /// How `self` stands to `other`; any two values are comparable.
    fn partial_cmp(&self, other: &Fract) -> (r: Option<Ordering>)
        ensures
            r == Some(int_order(self@, other@)),
    {
        if self.0 < other.0 {
            Some(Ordering::Less)
        } else if self.0 > other.0 {
            Some(Ordering::Greater)
        } else {
            Some(Ordering::Equal)
        }
    }
}

impl FixedPoint {
    /// Whether `self` is below `other`.
    pub fn const_lt(&self, other: Self) -> (r: bool)
        ensures
            r == (self@ < other@),
    {
        self.0 < other.0
    }

    /// Whether `self` is not above `other`.
    pub fn const_le(&self, other: Self) -> (r: bool)
        ensures
            r == (self@ <= other@),
    {
        self.0 <= other.0
    }

    /// Whether `self` is above `other`.
    pub fn const_gt(&self, other: Self) -> (r: bool)
        ensures
            r == (self@ > other@),
    {
        self.0 > other.0
    }

    /// Whether `self` is not below `other`.
    pub fn const_ge(&self, other: Self) -> (r: bool)
        ensures
            r == (self@ >= other@),
    {
        self.0 >= other.0
    }
}

impl PartialOrdSpecImpl for FixedPoint {
    open spec fn obeys_partial_cmp_spec() -> bool {
        true
    }

    open spec fn partial_cmp_spec(&self, other: &FixedPoint) -> Option<Ordering> {
        Some(int_order(self@, other@))
    }
}

impl PartialOrd for FixedPoint {
    /// How `self` stands to `other`; any two values are comparable.
    fn partial_cmp(&self, other: &FixedPoint) -> (r: Option<Ordering>)
        ensures
            r == Some(int_order(self@, other@)),
    {
        if self.0 < other.0 {
            Some(Ordering::Less)
        } else if self.0 > other.0 {
            Some(Ordering::Greater)
        } else {
            Some(Ordering::Equal)
        }
    }
}

} // verus!
