//! The drive state of a digital actor.

use vstd::prelude::*;

verus! {

#[derive(Clone, Copy, PartialEq, Eq, Structural, Debug)]
pub enum ValueState {
    High,
    Reverse,
    Low,
}

impl ValueState {
    /// The state a boolean reading maps to.
    pub fn from(value: bool) -> (r: ValueState)
        ensures
            r == if value {
                ValueState::High
            } else {
                ValueState::Low
            },
    {
        if value {
            ValueState::High
        } else {
            ValueState::Low
        }
    }

    /// The speed argument this state drives an actor with.
    pub fn to_i64(self) -> (r: i64)
        ensures
            r == match self {
                ValueState::High => 255,
                ValueState::Reverse => -255,
                ValueState::Low => 0,
            },
    {
        match self {
            ValueState::High => 255,
            ValueState::Reverse => -255,
            ValueState::Low => 0,
        }
    }
}

} // verus!
