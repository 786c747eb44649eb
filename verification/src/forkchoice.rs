//! Fork-choice broadcast: propagate the current fork-choice state, together
//! with the most recently executed payload, to every peer in index order.

use vstd::prelude::*;

use crate::env::{EnvView, Environment};
use crate::link::{CallTag, EngineLink, PeerView};
use crate::outcome::Outcome;
use crate::types::{Failure, ForkchoiceState, Hash256, PayloadAttributes};

verus! {

/// Broadcasts the latest fork choice: every peer, in index order, receives
/// an update whose head, safe and finalized hashes all equal the agreed
/// hash, carrying the most recently executed payload when there is one.
/// Any single peer-call failure aborts the whole step at once.
#[derive(Clone, Copy, Debug, Default)]
pub struct BroadcastLatestForkchoice {}

impl BroadcastLatestForkchoice {
    /// Creates a new fork-choice broadcast step.
    pub fn new() -> (r: BroadcastLatestForkchoice) {
        BroadcastLatestForkchoice {}
    }
}

/// The broadcast from peer `i` on: each peer is told in turn; the first
/// failed call aborts with its cause; reaching the end is success. The
/// reported status of each update is noted and ignored.
pub open spec fn forkchoice_broadcast_scan(
    env: EnvView,
    w: Seq<PeerView>,
    head: Hash256,
    with_attrs: bool,
    i: int,
) -> Outcome
    recommends
        0 <= i <= w.len(),
    decreases w.len() - i,
{
    if i >= w.len() {
        Outcome { env, result: Ok(()), calls: Seq::empty(), draws: 0 }
    } else {
        let call = CallTag::ForkchoiceUpdatedV3 { peer: i as usize, head, with_attributes: with_attrs };
        match w[i].fcu_v3 {
            Err(e) => Outcome {
                env,
                result: Err(Failure::PeerCall(e)),
                calls: seq![call],
                draws: 0,
            },
            Ok(_) => {
                let rest = forkchoice_broadcast_scan(env, w, head, with_attrs, i + 1);
                Outcome {
                    env: rest.env,
                    result: rest.result,
                    calls: seq![call] + rest.calls,
                    draws: 0,
                }
            },
        }
    }
}

/// What the fork-choice broadcast denotes: with no peers or no agreed block
/// it halts; otherwise every peer is told in index order, and all must
/// answer for the step to succeed.
pub open spec fn broadcast_latest_forkchoice_spec(env: EnvView, w: Seq<PeerView>) -> Outcome {
    if w.len() == 0 {
        Outcome::halt(env, Failure::NoPeers)
    } else {
        match env.latest_block_info {
            None => Outcome::halt(env, Failure::NoLatestBlockInfo),
            Some(info) => forkchoice_broadcast_scan(
                env,
                w,
                info.hash,
                env.latest_payload_executed is Some,
                0,
            ),
        }
    }
}

impl BroadcastLatestForkchoice {
    /// Runs the fork-choice broadcast against the context and the peers.
    #[verifier::loop_isolation(false)]
    pub fn execute<L: EngineLink>(&self, env: &mut Environment, link: &mut L) -> (r: Result<
        (),
        Failure,
    >)
        ensures
            ({
                let o = broadcast_latest_forkchoice_spec(old(env)@, old(link).world());
                &&& final(env)@ == o.env
                &&& r == o.result
                &&& final(link).world() == old(link).world()
                &&& final(link).calls() == old(link).calls() + o.calls
            }),
    {
        let ghost env0 = old(env)@;
        let ghost w = old(link).world();
        let ghost calls0 = old(link).calls();
        let payload = match &env.latest_payload_executed {
            Some(p) => Some(p.clone()),
            None => None,
        };
        let count = link.num_peers();
        if count == 0 {
            return Err(Failure::NoPeers);
        }
        let info = match env.latest_block_info {
            Some(i) => i,
            None => {
                return Err(Failure::NoLatestBlockInfo);
            },
        };
        let ghost with_attrs = env0.latest_payload_executed is Some;
        let ghost full = forkchoice_broadcast_scan(env0, w, info.hash, with_attrs, 0);
        let state = ForkchoiceState::all(info.hash);
        let ghost mut made: Seq<CallTag> = Seq::empty();
        let mut i: usize = 0;
        while i < count
            invariant
                0 <= i <= count,
                env@ == env0,
                link.world() == w,
                link.calls() == calls0 + made,
                full.env == forkchoice_broadcast_scan(env0, w, info.hash, with_attrs, i as int).env,
                full.result == forkchoice_broadcast_scan(
                    env0,
                    w,
                    info.hash,
                    with_attrs,
                    i as int,
                ).result,
                full.calls == made + forkchoice_broadcast_scan(
                    env0,
                    w,
                    info.hash,
                    with_attrs,
                    i as int,
                ).calls,
            decreases count - i,
        {
            let attrs_ref: Option<&PayloadAttributes> = match &payload {
                Some(p) => Some(p),
                None => None,
            };
            let resp = link.forkchoice_updated_v3(i, state, attrs_ref);
            proof {
                made = made.push(
                    CallTag::ForkchoiceUpdatedV3 {
                        peer: i,
                        head: info.hash,
                        with_attributes: with_attrs,
                    },
                );
            }
            match resp {
                Ok(_) => {},
                Err(e) => {
                    proof {
                        assert(full.calls =~= made);
                    }
                    return Err(Failure::PeerCall(e));
                },
            }
            proof {
                assert(full.calls =~= made + forkchoice_broadcast_scan(
                    env0,
                    w,
                    info.hash,
                    with_attrs,
                    i + 1,
                ).calls);
            }
            i = i + 1;
        }
        Ok(())
    }
}

} // verus!
