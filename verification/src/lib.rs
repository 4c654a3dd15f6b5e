//! Client-side protocol engine for the ftSwarm line-oriented serial protocol:
//! a wire codec for commands and responses, a connection core that correlates
//! requests with responses, and a router for asynchronous subscription updates.

pub mod command;
pub mod direct;
pub mod emulator;
pub mod laws;
pub mod message_parser;
pub mod message_queue;
pub mod numtext;
pub mod serial;
pub mod swarm;
pub mod swarm_object;
pub mod text;

use vstd::prelude::*;

verus! {

pub trait IdOf {
    /// The small integer the value serializes to on the wire.
    spec fn spec_id(&self) -> u32;

    /// Some objects have an ID, this function returns it
    fn id(&self) -> (r: u32)
        ensures
            r == self.spec_id(),
    ;
}

pub trait NameOf {
    /// The wire name of the value.
    spec fn spec_name(&self) -> Seq<char>;

    fn name(&self) -> (r: String)
        ensures
            r@ == self.spec_name(),
    ;
}

pub trait Serialized {
    /// The wire text of the value.
    spec fn spec_serialize(&self) -> Seq<char>;

    /// Serialize the object to a string to be sent over the bus
    fn serialize(&self) -> (r: String)
        ensures
            r@ == self.spec_serialize(),
    ;
}

pub trait Deserialized: View + Sized {
    /// The value (or the error text) that the given wire text denotes.
    spec fn spec_deserialize(s: Seq<char>) -> Result<Self::V, Seq<char>>;

    /// Deserialize the string into the object
    fn deserialize(value: &String) -> (r: Result<Self, String>)
        ensures
            match r {
                Ok(v) => Self::spec_deserialize(value@) == Ok::<Self::V, Seq<char>>(v@),
                Err(e) => Self::spec_deserialize(value@) == Err::<Self::V, Seq<char>>(e@),
            },
    ;
}

} // verus!
