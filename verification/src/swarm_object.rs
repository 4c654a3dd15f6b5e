//! The small value types shared by the typed device objects that sit on top
//! of the connection.

pub mod actor;
pub mod led;

use vstd::prelude::*;

use crate::command::argument::Argument;

verus! {

/// The hysteresis (in raw units) a subscription is registered with.
#[derive(Clone)]
pub struct Hysteresis(pub i32);

/// Whether a contact input is open or closed in its resting state.
#[derive(Clone)]
pub enum NormallyOpen {
    Open,
    Closed,
}

impl NormallyOpen {
    /// The wire argument for this contact configuration.
    pub fn into_argument(self) -> (r: Argument)
        ensures
            r@ == crate::command::argument::ArgumentView::Int(
                match self {
                    NormallyOpen::Open => 0,
                    NormallyOpen::Closed => 1,
                },
            ),
    {
        match self {
            NormallyOpen::Open => Argument::Int(0),
            NormallyOpen::Closed => Argument::Int(1),
        }
    }
}

} // verus!
