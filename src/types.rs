use vstd::prelude::*;

verus! {

/// Identifies a proposal or block; an empty hash means "not applicable".
pub type Hash = Vec<u8>;

/// Identity of the node that runs the state machine.
pub type Address = Vec<u8>;

} // verus!
