//! The outcome of comparing two integers.
use std::cmp::Ordering;
use vstd::prelude::*;

verus! {

/// How a first integer stands to a second one. Hosts see it as -1, 0 or 1.
#[derive(Clone, Copy, Debug, PartialEq, Eq, Structural)]
pub enum Comparison {
    /// The first is smaller.
    Less,
    /// The two are the same.
    Equal,
    /// The first is greater.
    Greater,
}

/// How `a` stands to `b` as signed numbers.
pub open spec fn compared(a: i64, b: i64) -> Comparison {
    if a < b {
        Comparison::Less
    } else if a == b {
        Comparison::Equal
    } else {
        Comparison::Greater
    }
}

impl Comparison {
    /// The number that stands for the outcome: -1, 0 or 1.
    pub open spec fn number_of(self) -> int {
        match self {
            Comparison::Less => -1,
            Comparison::Equal => 0,
            Comparison::Greater => 1,
        }
    }

    /// The outcome seen from the other side.
    pub open spec fn reversed(self) -> Comparison {
        match self {
            Comparison::Less => Comparison::Greater,
            Comparison::Equal => Comparison::Equal,
            Comparison::Greater => Comparison::Less,
        }
    }

    /// The outcome that an ordering of the standard library stands for.
    pub fn from_ordering(ordering: Ordering) -> (r: Comparison)
        ensures
            r == match ordering {
                Ordering::Less => Comparison::Less,
                Ordering::Equal => Comparison::Equal,
                Ordering::Greater => Comparison::Greater,
            },
    {
        match ordering {
            Ordering::Less => Comparison::Less,
            Ordering::Equal => Comparison::Equal,
            Ordering::Greater => Comparison::Greater,
        }
    }

    /// The number under which a host sees the outcome.
    pub fn number(&self) -> (r: i32)
        ensures
            r == self.number_of(),
    {
        match self {
            Comparison::Less => -1,
            Comparison::Equal => 0,
            Comparison::Greater => 1,
        }
    }
}

/// Compares two signed integers.
pub fn compare(a: i64, b: i64) -> (r: Comparison)
    ensures
        r == compared(a, b),
{
    Comparison::from_ordering(a.cmp(&b))
}

} // verus!
