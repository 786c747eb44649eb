//! Acceptance verification: confirm that the just-built payload was adopted
//! as chain head by at least one peer, against the post-merge header
//! predicates.

use vstd::prelude::*;

use crate::env::{EnvView, Environment};
use crate::link::{CallTag, EngineLink, PeerView};
use crate::outcome::Outcome;
use crate::types::{BlockHeaderView, BlockInfo, Failure, Hash256, PayloadAttributesView,
    PayloadId};

verus! {

/// Checks whether the broadcast payload was accepted: every peer is asked,
/// in index order, for its latest header and for the payload built under
/// the recorded identifier; a peer counts as accepting when all four
/// predicates hold at once. The first accepting peer's header updates the
/// context; later peers are still asked but change nothing. Success means
/// at least one peer accepted.
#[derive(Clone, Copy, Debug, Default)]
pub struct CheckPayloadAccepted {}

impl CheckPayloadAccepted {
    /// Creates a new acceptance-verification step.
    pub fn new() -> (r: CheckPayloadAccepted) {
        CheckPayloadAccepted {}
    }
}

/// The four acceptance predicates, all of which must hold at once: the
/// peer's latest header hash equals the built payload's block hash, the
/// header's difficulty is zero, the header's mix-hash equals the staged
/// payload's randomness value, and the header's extra-data is strictly
/// longer than 32 bytes.
pub open spec fn acceptance_passes(
    h: BlockHeaderView,
    built: PayloadAttributesView,
    payload_block_hash: Hash256,
) -> bool {
    &&& h.hash == payload_block_hash
    &&& h.difficulty.spec_is_zero()
    &&& h.mix_hash == built.prev_randao
    &&& h.extra_data.len() > 32
}

/// The acceptance scan from peer `i` on. A failed call, a missing header,
/// or a missing staged payload aborts; a failed predicate merely skips the
/// peer. The first pass updates the context; `accepted` carries whether a
/// pass happened before `i`.
pub open spec fn check_scan(
    env: EnvView,
    w: Seq<PeerView>,
    id: PayloadId,
    i: int,
    accepted: bool,
) -> Outcome
    recommends
        0 <= i <= w.len(),
    decreases w.len() - i,
{
    if i >= w.len() {
        Outcome {
            env,
            result: if accepted {
                Ok(())
            } else {
                Err(Failure::NoPayloadAccepted)
            },
            calls: Seq::empty(),
            draws: 0,
        }
    } else {
        let lh = CallTag::LatestHeader { peer: i as usize };
        match w[i].latest_header {
            Err(e) => Outcome { env, result: Err(Failure::PeerCall(e)), calls: seq![lh], draws: 0 },
            Ok(None) => Outcome {
                env,
                result: Err(Failure::MissingLatestHeader),
                calls: seq![lh],
                draws: 0,
            },
            Ok(Some(h)) => match env.latest_payload_built {
                None => Outcome {
                    env,
                    result: Err(Failure::NoPayloadBuilt),
                    calls: seq![lh],
                    draws: 0,
                },
                Some(built) => {
                    let gp = CallTag::GetPayloadV3 { peer: i as usize, id };
                    match w[i].get_payload_v3 {
                        Err(e) => Outcome {
                            env,
                            result: Err(Failure::PeerCall(e)),
                            calls: seq![lh, gp],
                            draws: 0,
                        },
                        Ok(envelope) => {
                            let pass = acceptance_passes(h, built, envelope.block_hash);
                            let env1 = if pass && !accepted {
                                env.with_acceptance(built.timestamp, h.hash, h.number)
                            } else {
                                env
                            };
                            let rest = check_scan(env1, w, id, i + 1, accepted || pass);
                            Outcome {
                                env: rest.env,
                                result: rest.result,
                                calls: seq![lh, gp] + rest.calls,
                                draws: 0,
                            }
                        },
                    }
                },
            },
        }
    }
}

/// What acceptance verification denotes: it requires an agreed block and a
/// payload identifier recorded under the key one past its number, then runs
/// the acceptance scan over all peers.
pub open spec fn check_payload_accepted_spec(env: EnvView, w: Seq<PeerView>) -> Outcome {
    match env.latest_block_info {
        None => Outcome::halt(env, Failure::NoLatestBlockInfo),
        Some(info) => {
            if info.number + 1 > u64::MAX {
                Outcome::halt(env, Failure::ArithmeticOverflow)
            } else if !env.payload_id_history.contains_key((info.number + 1) as u64) {
                Outcome::halt(env, Failure::PayloadIdNotFound)
            } else {
                check_scan(env, w, env.payload_id_history[(info.number + 1) as u64], 0, false)
            }
        },
    }
}

impl CheckPayloadAccepted {
    /// Runs acceptance verification against the context and the peers.
    #[verifier::loop_isolation(false)]
    pub fn execute<L: EngineLink>(&self, env: &mut Environment, link: &mut L) -> (r: Result<
        (),
        Failure,
    >)
        ensures
            ({
                let o = check_payload_accepted_spec(old(env)@, old(link).world());
                &&& final(env)@ == o.env
                &&& r == o.result
                &&& final(link).world() == old(link).world()
                &&& final(link).calls() == old(link).calls() + o.calls
            }),
    {
        let ghost env0 = old(env)@;
        let ghost w = old(link).world();
        let ghost calls0 = old(link).calls();
        let info = match env.latest_block_info {
            Some(i) => i,
            None => {
                return Err(Failure::NoLatestBlockInfo);
            },
        };
        if info.number == u64::MAX {
            return Err(Failure::ArithmeticOverflow);
        }
        let id = match env.payload_id_history.get(info.number + 1) {
            Some(p) => *p,
            None => {
                return Err(Failure::PayloadIdNotFound);
            },
        };
        let ghost full = check_scan(env0, w, id, 0, false);
        let count = link.num_peers();
        let mut accepted: bool = false;
        let ghost mut made: Seq<CallTag> = Seq::empty();
        let mut i: usize = 0;
        while i < count
            invariant
                0 <= i <= count,
                count == w.len(),
                link.world() == w,
                link.calls() == calls0 + made,
                env@.latest_payload_built == env0.latest_payload_built,
                full.env == check_scan(env@, w, id, i as int, accepted).env,
                full.result == check_scan(env@, w, id, i as int, accepted).result,
                full.calls == made + check_scan(env@, w, id, i as int, accepted).calls,
            decreases count - i,
        {
            let header = match link.latest_header(i) {
                Ok(Some(h)) => h,
                Ok(None) => {
                    proof {
                        made = made.push(CallTag::LatestHeader { peer: i });
                        assert(full.calls =~= made);
                    }
                    return Err(Failure::MissingLatestHeader);
                },
                Err(e) => {
                    proof {
                        made = made.push(CallTag::LatestHeader { peer: i });
                        assert(full.calls =~= made);
                    }
                    return Err(Failure::PeerCall(e));
                },
            };
            proof {
                made = made.push(CallTag::LatestHeader { peer: i });
            }
            let (built_randao, built_time) = match &env.latest_payload_built {
                Some(b) => (b.prev_randao, b.timestamp),
                None => {
                    proof {
                        assert(full.calls =~= made);
                    }
                    return Err(Failure::NoPayloadBuilt);
                },
            };
            let envelope = match link.get_payload_v3(i, id) {
                Ok(p) => p,
                Err(e) => {
                    proof {
                        made = made.push(CallTag::GetPayloadV3 { peer: i, id });
                        assert(full.calls =~= made);
                    }
                    return Err(Failure::PeerCall(e));
                },
            };
            proof {
                made = made.push(CallTag::GetPayloadV3 { peer: i, id });
            }
            let pass = header.hash == envelope.block_hash && header.difficulty.is_zero()
                && header.mix_hash == built_randao && header.extra_data.len() > 32;
            let ghost env_before = env@;
            if pass && !accepted {
                env.latest_header_time = built_time;
                env.latest_fork_choice_state.head_block_hash = header.hash;
                env.latest_block_info = Some(
                    BlockInfo { hash: header.hash, number: header.number },
                );
                proof {
                    assert(env@ =~= env_before.with_acceptance(
                        built_time,
                        header@.hash,
                        header@.number,
                    ));
                }
            }
            if pass {
                accepted = true;
            }
            proof {
                assert(full.calls =~= made + check_scan(env@, w, id, i + 1, accepted).calls);
            }
            i = i + 1;
        }
        if accepted {
            Ok(())
        } else {
            Err(Failure::NoPayloadAccepted)
        }
    }
}

} // verus!
