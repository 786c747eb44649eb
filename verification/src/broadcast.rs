//! Payload broadcast: reconstruct the block each peer reports as latest,
//! submit it as a new payload, and stop at the first peer that accepts it.

use vstd::prelude::*;

use crate::env::{EnvView, Environment};
use crate::link::{CallTag, EngineLink, PeerView};
use crate::outcome::Outcome;
use crate::types::{Failure, Hash256, PayloadAttributesView, PayloadStatus};

verus! {

/// Broadcasts the next new payload: each peer, in index order, has its
/// latest block fetched, validated against the expected block number and
/// parent beacon root, and submitted back as a new payload; the first peer
/// answering "valid" ends the scan with success. A divergent block number
/// or beacon root is a hard failure of the whole step, not a skip, because
/// it means the peers left the expected protocol state rather than lagged.
#[derive(Clone, Copy, Debug, Default)]
pub struct BroadcastNextNewPayload {}

impl BroadcastNextNewPayload {
    /// Creates a new payload-broadcast step.
    pub fn new() -> (r: BroadcastNextNewPayload) {
        BroadcastNextNewPayload {}
    }
}

/// The broadcast scan from peer `i` on, with `root` the parent beacon root
/// the staged payload expects and `built` that staged payload. Exhaustion
/// without a "valid" answer is a failure.
pub open spec fn broadcast_scan(
    env: EnvView,
    w: Seq<PeerView>,
    built: PayloadAttributesView,
    root: Hash256,
    i: int,
) -> Outcome
    recommends
        0 <= i <= w.len(),
    decreases w.len() - i,
{
    if i >= w.len() {
        Outcome { env, result: Err(Failure::NoBroadcastAccepted), calls: Seq::empty(), draws: 0 }
    } else {
        let lb = CallTag::LatestBlock { peer: i as usize };
        match w[i].latest_block {
            Err(e) => Outcome { env, result: Err(Failure::PeerCall(e)), calls: seq![lb], draws: 0 },
            Ok(None) => Outcome {
                env,
                result: Err(Failure::MissingLatestBlock),
                calls: seq![lb],
                draws: 0,
            },
            Ok(Some(block)) => match env.latest_block_info {
                None => Outcome {
                    env,
                    result: Err(Failure::NoLatestBlockInfo),
                    calls: seq![lb],
                    draws: 0,
                },
                Some(info) => {
                    if block.header.number != info.number {
                        Outcome {
                            env,
                            result: Err(
                                Failure::BlockNumberMismatch {
                                    expected: info.number,
                                    actual: block.header.number,
                                },
                            ),
                            calls: seq![lb],
                            draws: 0,
                        }
                    } else {
                        match block.header.parent_beacon_block_root {
                            None => Outcome {
                                env,
                                result: Err(Failure::BlockWithoutBeaconRoot),
                                calls: seq![lb],
                                draws: 0,
                            },
                            Some(block_root) => {
                                if block_root != root {
                                    Outcome {
                                        env,
                                        result: Err(
                                            Failure::BeaconRootMismatch {
                                                expected: root,
                                                actual: block_root,
                                            },
                                        ),
                                        calls: seq![lb],
                                        draws: 0,
                                    }
                                } else {
                                    let np = CallTag::NewPayload {
                                        peer: i as usize,
                                        block_number: block.header.number,
                                        parent_beacon_block_root: root,
                                    };
                                    match w[i].new_payload {
                                        Err(e) => Outcome {
                                            env,
                                            result: Err(Failure::PeerCall(e)),
                                            calls: seq![lb, np],
                                            draws: 0,
                                        },
                                        Ok(PayloadStatus::Valid) => Outcome {
                                            env: env.with_payload_executed(built),
                                            result: Ok(()),
                                            calls: seq![lb, np],
                                            draws: 0,
                                        },
                                        Ok(_) => {
                                            let rest = broadcast_scan(env, w, built, root, i + 1);
                                            Outcome {
                                                env: rest.env,
                                                result: rest.result,
                                                calls: seq![lb, np] + rest.calls,
                                                draws: 0,
                                            }
                                        },
                                    }
                                }
                            },
                        }
                    }
                },
            },
        }
    }
}

/// What the payload broadcast denotes: it requires a staged built payload
/// carrying a parent beacon root, then runs the broadcast scan.
pub open spec fn broadcast_next_new_payload_spec(env: EnvView, w: Seq<PeerView>) -> Outcome {
    match env.latest_payload_built {
        None => Outcome::halt(env, Failure::NoPayloadBuilt),
        Some(built) => match built.parent_beacon_block_root {
            None => Outcome::halt(env, Failure::NoParentBeaconRoot),
            Some(root) => broadcast_scan(env, w, built, root, 0),
        },
    }
}

impl BroadcastNextNewPayload {
    /// Runs the payload broadcast against the context and the peers.
    #[verifier::loop_isolation(false)]
    pub fn execute<L: EngineLink>(&self, env: &mut Environment, link: &mut L) -> (r: Result<
        (),
        Failure,
    >)
        ensures
            ({
                let o = broadcast_next_new_payload_spec(old(env)@, old(link).world());
                &&& final(env)@ == o.env
                &&& r == o.result
                &&& final(link).world() == old(link).world()
                &&& final(link).calls() == old(link).calls() + o.calls
            }),
    {
        let ghost env0 = old(env)@;
        let ghost w = old(link).world();
        let ghost calls0 = old(link).calls();
        let root = match &env.latest_payload_built {
            Some(built) => match built.parent_beacon_block_root {
                Some(root) => root,
                None => {
                    return Err(Failure::NoParentBeaconRoot);
                },
            },
            None => {
                return Err(Failure::NoPayloadBuilt);
            },
        };
        let ghost built = env0.latest_payload_built->Some_0;
        let ghost full = broadcast_scan(env0, w, built, root, 0);
        let count = link.num_peers();
        let ghost mut made: Seq<CallTag> = Seq::empty();
        let mut i: usize = 0;
        while i < count
            invariant
                0 <= i <= count,
                count == w.len(),
                env@ == env0,
                link.world() == w,
                link.calls() == calls0 + made,
                full.env == broadcast_scan(env0, w, built, root, i as int).env,
                full.result == broadcast_scan(env0, w, built, root, i as int).result,
                full.calls == made + broadcast_scan(env0, w, built, root, i as int).calls,
            decreases count - i,
        {
            let block = match link.latest_block(i) {
                Ok(Some(b)) => b,
                Ok(None) => {
                    proof {
                        made = made.push(CallTag::LatestBlock { peer: i });
                        assert(full.calls =~= made);
                    }
                    return Err(Failure::MissingLatestBlock);
                },
                Err(e) => {
                    proof {
                        made = made.push(CallTag::LatestBlock { peer: i });
                        assert(full.calls =~= made);
                    }
                    return Err(Failure::PeerCall(e));
                },
            };
            proof {
                made = made.push(CallTag::LatestBlock { peer: i });
            }
            let info = match env.latest_block_info {
                Some(info) => info,
                None => {
                    proof {
                        assert(full.calls =~= made);
                    }
                    return Err(Failure::NoLatestBlockInfo);
                },
            };
            if block.header.number != info.number {
                proof {
                    assert(full.calls =~= made);
                }
                return Err(
                    Failure::BlockNumberMismatch {
                        expected: info.number,
                        actual: block.header.number,
                    },
                );
            }
            let block_root = match block.header.parent_beacon_block_root {
                Some(r) => r,
                None => {
                    proof {
                        assert(full.calls =~= made);
                    }
                    return Err(Failure::BlockWithoutBeaconRoot);
                },
            };
            if block_root != root {
                proof {
                    assert(full.calls =~= made);
                }
                return Err(Failure::BeaconRootMismatch { expected: root, actual: block_root });
            }
            let status = match link.new_payload(i, &block, root) {
                Ok(s) => s,
                Err(e) => {
                    proof {
                        made = made.push(
                            CallTag::NewPayload {
                                peer: i,
                                block_number: block.header.number,
                                parent_beacon_block_root: root,
                            },
                        );
                        assert(full.calls =~= made);
                    }
                    return Err(Failure::PeerCall(e));
                },
            };
            proof {
                made = made.push(
                    CallTag::NewPayload {
                        peer: i,
                        block_number: block.header.number,
                        parent_beacon_block_root: root,
                    },
                );
            }
            match status {
                PayloadStatus::Valid => {
                    let executed = match &env.latest_payload_built {
                        Some(b) => b.clone(),
                        None => {
                            proof {
                                assert(false);
                            }
                            return Err(Failure::NoPayloadBuilt);
                        },
                    };
                    env.latest_payload_executed = Some(executed);
                    proof {
                        assert(full.calls =~= made);
                        assert(env@ =~= env0.with_payload_executed(built));
                    }
                    return Ok(());
                },
                _ => {},
            }
            proof {
                assert(full.calls =~= made + broadcast_scan(env0, w, built, root, i + 1).calls);
            }
            i = i + 1;
        }
        Err(Failure::NoBroadcastAccepted)
    }
}

} // verus!
