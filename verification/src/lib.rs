//! Verified orchestration core for driving execution-layer peers through the
//! fork-choice / payload-build / payload-broadcast / payload-verify cycle of
//! the Engine API, without a real consensus layer attached.
//!
//! The run context ([`env::Environment`]) is the only mutable state; every
//! step consumes it by exclusive reference together with a peer capability
//! surface ([`link::EngineLink`]) and yields either success or a descriptive
//! failure, and its contract pins the resulting context, result and
//! peer-call trace to a specification-level outcome function of the peers'
//! answers. [`laws`] proves the properties that hold for every context and
//! every set of answers.

pub mod accept;
pub mod attributes;
pub mod broadcast;
pub mod compose;
pub mod env;
pub mod forkchoice;
pub mod laws;
pub mod link;
pub mod mine;
pub mod outcome;
pub mod payload;
pub mod pick;
pub mod random;
pub mod table;
pub mod types;
