use vstd::prelude::*;

use crate::io::types::raw::RawValue;

verus! {

/// A relation between two values, for conditions such as "above the threshold".
#[derive(Debug, Clone, Copy, PartialEq, Eq, Structural)]
pub enum Comparison {
    Equal,
    NotEqual,
    GreaterThan,
    GreaterOrEqual,
    LessThan,
    LessOrEqual,
}

impl Comparison {
    /// Whether `lhs` stands in this relation to `rhs`.
    pub open spec fn holds(self, lhs: int, rhs: int) -> bool {
        match self {
            Comparison::Equal => lhs == rhs,
            Comparison::NotEqual => lhs != rhs,
            Comparison::GreaterThan => lhs > rhs,
            Comparison::GreaterOrEqual => lhs >= rhs,
            Comparison::LessThan => lhs < rhs,
            Comparison::LessOrEqual => lhs <= rhs,
        }
    }

    /// Whether `lhs` stands in this relation to `rhs`, both taken by their
    /// magnitude. There is no tolerance: values are equal or they are not.
    pub fn matches(&self, lhs: RawValue, rhs: RawValue) -> (r: bool)
        ensures
            r == self.holds(lhs.magnitude(), rhs.magnitude()),
    {
        let l: i64 = lhs.to_int();
        let r: i64 = rhs.to_int();
        match self {
            Comparison::Equal => l == r,
            Comparison::NotEqual => l != r,
            Comparison::GreaterThan => l > r,
            Comparison::GreaterOrEqual => l >= r,
            Comparison::LessThan => l < r,
            Comparison::LessOrEqual => l <= r,
        }
    }
}

} // verus!
