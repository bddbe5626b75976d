use vstd::prelude::*;

verus! {

/// Errors reported by the trigger handle and by the state machine.
#[derive(Debug, Clone)]
pub enum ConsensusError {
    /// The trigger queue is closed; carries the tag of the trigger that was refused.
    TriggerSMRErr(String),
    /// A new height more than one ahead of the current one.
    OutOfOrderHeight { current: u64, received: u64 },
    /// A new-height trigger whose own height differs from its status's height.
    MalformedTrigger,
    /// A recovery trigger without usable write-ahead-log information.
    MalformedRecovery,
    /// A timeout at the last representable round.
    RoundOverflow,
}

pub type ConsensusResult<T> = Result<T, ConsensusError>;

} // verus!
