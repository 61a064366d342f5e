//! The failure domains of the coordination layer.
use vstd::prelude::*;

verus! {

#[derive(Clone, Debug)]
pub enum Error {
    /// The connection failed, timed out, or the reply could not be read.
    Transport,
    /// A payload was malformed or did not mean what it had to.
    Decode,
    /// The remote call answered with an application error, kept verbatim.
    JsonRpc(String),
    /// A state machine was driven from a state it was not in.
    InvalidStateTransfer(String, String),
    /// The supervised process could not be spawned.
    Launch,
}

} // verus!
