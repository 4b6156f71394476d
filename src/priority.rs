//! Priority-fee levels of a swap transaction.
use vstd::prelude::*;

verus! {

/// How eagerly the swap service should bid priority fees.
#[derive(Debug, Clone, Copy, PartialEq, Eq, Structural)]
pub enum PriorityLevel {
    Low,
    Medium,
    High,
}

impl PriorityLevel {
    /// The level's name as the swap service spells it.
    pub fn as_str(&self) -> (r: &'static str)
        ensures
            r@ == match *self {
                PriorityLevel::Low => "low"@,
                PriorityLevel::Medium => "medium"@,
                PriorityLevel::High => "high"@,
            },
    {
        match self {
            PriorityLevel::Low => "low",
            PriorityLevel::Medium => "medium",
            PriorityLevel::High => "high",
        }
    }
}

} // verus!
