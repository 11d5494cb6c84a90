use vstd::prelude::*;

verus! {

/// A value of the resource specification that the target cgroup generation
/// cannot represent. Each variant names the offending field and carries its value.
#[derive(Debug, Clone, Copy, PartialEq, Eq, Structural)]
pub enum ValidationError {
    /// `memory.reservation` was present but not positive.
    Reservation(i64),
    /// `memory.limit` was present but not positive.
    Limit(i64),
    /// The swap value cannot be turned into a separate swap quantity
    /// given the memory limit it is paired with.
    Swap { swap: i64, limit: Option<i64> },
}

impl ValidationError {
    pub open spec fn spec_field(self) -> Seq<char> {
        match self {
            ValidationError::Reservation(_) => "memory.reservation"@,
            ValidationError::Limit(_) => "memory.limit"@,
            ValidationError::Swap { .. } => "memory.swap"@,
        }
    }

    /// The name of the rejected field.
    pub fn field(&self) -> (r: &'static str)
        ensures
            r@ == self.spec_field(),
    {
        match self {
            ValidationError::Reservation(_) => "memory.reservation",
            ValidationError::Limit(_) => "memory.limit",
            ValidationError::Swap { .. } => "memory.swap",
        }
    }

    /// The rejected value.
    pub fn value(&self) -> (r: i64)
        ensures
            r == match self {
                ValidationError::Reservation(v) => *v,
                ValidationError::Limit(v) => *v,
                ValidationError::Swap { swap, .. } => *swap,
            },
    {
        match self {
            ValidationError::Reservation(v) => *v,
            ValidationError::Limit(v) => *v,
            ValidationError::Swap { swap, .. } => *swap,
        }
    }
}

} // verus!
