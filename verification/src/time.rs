//! Bounded parts of a time of day, and a count of seconds.

use vstd::prelude::*;

verus! {

/// An hour of the day: a `u8` between 0 and 23.
#[derive(Debug, Clone, Copy, PartialEq, Eq, Structural, PartialOrd, Ord, Hash)]
pub struct Hour(u8);

/// A minute of the hour: a `u8` between 0 and 59.
#[derive(Debug, Clone, Copy, PartialEq, Eq, Structural, PartialOrd, Ord, Hash)]
pub struct Minute(u8);

/// A count of seconds.
#[derive(Debug, Clone, Copy, PartialEq, Eq, Structural, PartialOrd, Ord, Hash)]
pub struct Second(pub u32);

impl View for Hour {
    type V = int;

    closed spec fn view(&self) -> int {
        self.0 as int
    }
}

impl View for Minute {
    type V = int;

    closed spec fn view(&self) -> int {
        self.0 as int
    }
}

impl Hour {
    #[verifier::type_invariant]
    spec fn in_range(self) -> bool {
        self.0 <= 23
    }

    /// The hour `value`, where it is at most 23.
    pub fn new(value: u8) -> (r: Result<Self, ()>)
        ensures
            r is Ok <==> value <= 23,
            r matches Ok(h) ==> h@ == value,
    {
        if value <= 23 {
            Ok(Hour(value))
        } else {
            Err(())
        }
    }

    /// The hour as a number, which is at most 23.
    pub fn value(self) -> (r: u8)
        ensures
            r == self@,
            r <= 23,
    {
        proof {
            use_type_invariant(self);
        }
        self.0
    }
}

impl Minute {
    #[verifier::type_invariant]
    spec fn in_range(self) -> bool {
        self.0 <= 59
    }

    /// The minute `value`, where it is at most 59.
    pub fn new(value: u8) -> (r: Result<Self, ()>)
        ensures
            r is Ok <==> value <= 59,
            r matches Ok(m) ==> m@ == value,
    {
        if value <= 59 {
            Ok(Minute(value))
        } else {
            Err(())
        }
    }

    /// The minute as a number, which is at most 59.
    pub fn value(self) -> (r: u8)
        ensures
            r == self@,
            r <= 59,
    {
        proof {
            use_type_invariant(self);
        }
        self.0
    }
}

} // verus!
