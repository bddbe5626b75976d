//! Drive loop and round/step state machine of a BFT state machine replication engine.
//!
//! Producers push triggers through an `SMRHandler`; the `SMR` driver owns the
//! state machine, applies one trigger at a time and publishes the resulting
//! protocol and timer events on two separate channels.
pub mod types;
pub mod error;
pub mod smr_types;
pub mod fsm;
pub mod laws;
mod channel;
pub mod smr;
