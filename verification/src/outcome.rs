//! What one step denotes: the context it leaves behind, the result it
//! reports, the peer calls it makes, and the randomness it consumes.

use vstd::prelude::*;

use crate::env::EnvView;
use crate::link::CallTag;
use crate::types::Failure;

verus! {

/// The outcome of one step, as a mathematical value: the run context after
/// the step, its result, the peer calls it made in order, and how many
/// random draws it consumed.
pub struct Outcome {
    /// The run context after the step.
    pub env: EnvView,
    /// The step's result.
    pub result: Result<(), Failure>,
    /// The peer calls the step made, oldest first.
    pub calls: Seq<CallTag>,
    /// The number of random draws the step consumed.
    pub draws: nat,
}

impl Outcome {
    /// A step that failed with `f` before any peer call or draw, leaving
    /// the context as it was.
    pub open spec fn halt(env: EnvView, f: Failure) -> Outcome {
        Outcome { env, result: Err(f), calls: Seq::empty(), draws: 0 }
    }
}

} // verus!
