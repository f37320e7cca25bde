//! Closed scalar ranges. `FP_MAX` stands in for infinity, so the empty
//! interval runs from `FP_MAX` down to `-FP_MAX` and contains nothing, and the
//! universe runs the other way and contains every scalar.
use vstd::prelude::*;

verus! {

use crate::fixed::FP_MAX;

#[derive(Clone, Copy, PartialEq, Eq, Structural, Debug)]
pub struct Interval {
    pub min: i64,
    pub max: i64,
}

pub open spec fn contains_s(i: Interval, x: int) -> bool {
    i.min <= x && x <= i.max
}

pub open spec fn surrounds_s(i: Interval, x: int) -> bool {
    i.min < x && x < i.max
}

pub open spec fn clamp_s(i: Interval, x: int) -> int {
    if x < i.min {
        i.min as int
    } else if x > i.max {
        i.max as int
    } else {
        x
    }
}

impl Interval {
    pub fn new(min: i64, max: i64) -> (r: Interval)
        ensures
            r == (Interval { min, max }),
    {
        Interval { min, max }
    }

    /// The interval no scalar lies in.
    pub fn empty() -> (r: Interval)
        ensures
            r.min == FP_MAX && r.max == -FP_MAX,
            forall|x: int| !contains_s(r, x),
    {
        Interval { min: FP_MAX, max: -FP_MAX }
    }

    /// The interval every scalar lies in.
    pub fn universe() -> (r: Interval)
        ensures
            r.min == -FP_MAX && r.max == FP_MAX,
            forall|x: int| crate::fixed::fp_in_range(x) ==> contains_s(r, x),
    {
        Interval { min: -FP_MAX, max: FP_MAX }
    }

    pub fn size(&self) -> (r: i64)
        ensures
            r as int == crate::fixed::fp_sub_s(self.max as int, self.min as int),
    {
        crate::fixed::fp_sub(self.max, self.min)
    }

    /// Inclusive membership at both ends.
    pub fn contains(&self, x: i64) -> (r: bool)
        ensures
            r == contains_s(*self, x as int),
    {
        self.min <= x && x <= self.max
    }

    /// Strict membership at both ends; used to reject intersection roots that
    /// land exactly on a boundary.
    pub fn surrounds(&self, x: i64) -> (r: bool)
        ensures
            r == surrounds_s(*self, x as int),
    {
        self.min < x && x < self.max
    }

    pub fn clamp(&self, x: i64) -> (r: i64)
        ensures
            r as int == clamp_s(*self, x as int),
    {
        if x < self.min {
            self.min
        } else if x > self.max {
            self.max
        } else {
            x
        }
    }
}

} // verus!
