//! Payload generation: ask the primary peer to start building a payload
//! from the staged attributes, then retrieve the built payload.

use vstd::prelude::*;

use crate::env::{EnvView, Environment};
use crate::link::{CallTag, EngineLink, PeerView};
use crate::outcome::Outcome;
use crate::types::{Failure, ForkchoiceState};

verus! {

/// Generates the next payload: sends the primary peer (peer 0) a
/// fork-choice update whose head, safe and finalized hashes all equal the
/// agreed hash, carrying the attributes staged for the agreed block number;
/// requires a payload identifier back; then retrieves the built payload
/// after giving the peer time to assemble it.
#[derive(Clone, Copy, Debug, Default)]
pub struct GenerateNextPayload {}

impl GenerateNextPayload {
    /// Creates a new payload-generation step.
    pub fn new() -> (r: GenerateNextPayload) {
        GenerateNextPayload {}
    }
}

/// What payload generation denotes: it requires an agreed block and staged
/// attributes for its number; the update goes to peer 0; a missing payload
/// identifier is a failure; on success the identifier is recorded under the
/// key one past the agreed number and the retrieved payload is staged as
/// the latest built one.
pub open spec fn generate_next_payload_spec(env: EnvView, w: Seq<PeerView>) -> Outcome {
    match env.latest_block_info {
        None => Outcome::halt(env, Failure::NoLatestBlockInfo),
        Some(info) => {
            if !env.payload_attributes.contains_key(info.number) {
                Outcome::halt(env, Failure::NoPayloadAttributes)
            } else if w.len() == 0 {
                Outcome::halt(env, Failure::NoPeers)
            } else {
                let fcu = CallTag::ForkchoiceUpdatedV3 {
                    peer: 0,
                    head: info.hash,
                    with_attributes: true,
                };
                match w[0].fcu_v3 {
                    Err(e) => Outcome {
                        env,
                        result: Err(Failure::PeerCall(e)),
                        calls: seq![fcu],
                        draws: 0,
                    },
                    Ok(resp) => match resp.payload_id {
                        None => Outcome {
                            env,
                            result: Err(Failure::NoPayloadId),
                            calls: seq![fcu],
                            draws: 0,
                        },
                        Some(id) => {
                            let env1 = env.with_next_payload_id(id);
                            let gp = CallTag::GetPayloadV3 { peer: 0, id };
                            match w[0].get_payload_v3 {
                                Err(e) => Outcome {
                                    env: env1,
                                    result: Err(Failure::PeerCall(e)),
                                    calls: seq![fcu, gp],
                                    draws: 0,
                                },
                                Ok(envelope) => {
                                    if info.number + 1 > u64::MAX {
                                        Outcome {
                                            env: env1,
                                            result: Err(Failure::ArithmeticOverflow),
                                            calls: seq![fcu, gp],
                                            draws: 0,
                                        }
                                    } else {
                                        Outcome {
                                            env: env1.with_payload_retrieved(
                                                (info.number + 1) as u64,
                                                id,
                                                envelope.attributes,
                                            ),
                                            result: Ok(()),
                                            calls: seq![fcu, gp],
                                            draws: 0,
                                        }
                                    }
                                },
                            }
                        },
                    },
                }
            }
        },
    }
}

impl GenerateNextPayload {
    /// Runs payload generation against the context and the peers.
    pub fn execute<L: EngineLink>(&self, env: &mut Environment, link: &mut L) -> (r: Result<
        (),
        Failure,
    >)
        ensures
            ({
                let o = generate_next_payload_spec(old(env)@, old(link).world());
                &&& final(env)@ == o.env
                &&& r == o.result
                &&& final(link).world() == old(link).world()
                &&& final(link).calls() == old(link).calls() + o.calls
            }),
    {
        let ghost env0 = old(env)@;
        let ghost w = old(link).world();
        let ghost calls0 = old(link).calls();
        let info = match env.latest_block_info {
            Some(i) => i,
            None => {
                proof {
                    assert(calls0 + Seq::<CallTag>::empty() =~= calls0);
                }
                return Err(Failure::NoLatestBlockInfo);
            },
        };
        let attrs = match env.payload_attributes.get(info.number) {
            Some(a) => a.clone(),
            None => {
                proof {
                    assert(calls0 + Seq::<CallTag>::empty() =~= calls0);
                }
                return Err(Failure::NoPayloadAttributes);
            },
        };
        if link.num_peers() == 0 {
            proof {
                assert(calls0 + Seq::<CallTag>::empty() =~= calls0);
            }
            return Err(Failure::NoPeers);
        }
        let state = ForkchoiceState::all(info.hash);
        let fcu_result = match link.forkchoice_updated_v3(0, state, Some(&attrs)) {
            Ok(resp) => resp,
            Err(e) => {
                proof {
                    assert(link.calls() =~= calls0 + generate_next_payload_spec(env0, w).calls);
                }
                return Err(Failure::PeerCall(e));
            },
        };
        let id = match fcu_result.payload_id {
            Some(id) => id,
            None => {
                proof {
                    assert(link.calls() =~= calls0 + generate_next_payload_spec(env0, w).calls);
                }
                return Err(Failure::NoPayloadId);
            },
        };
        env.next_payload_id = Some(id);
        link.pause_for_build();
        let envelope = match link.get_payload_v3(0, id) {
            Ok(p) => p,
            Err(e) => {
                proof {
                    assert(link.calls() =~= calls0 + generate_next_payload_spec(env0, w).calls);
                    assert(env@ =~= env0.with_next_payload_id(id));
                }
                return Err(Failure::PeerCall(e));
            },
        };
        if info.number == u64::MAX {
            proof {
                assert(link.calls() =~= calls0 + generate_next_payload_spec(env0, w).calls);
                assert(env@ =~= env0.with_next_payload_id(id));
            }
            return Err(Failure::ArithmeticOverflow);
        }
        env.payload_id_history.insert(info.number + 1, id);
        env.latest_payload_built = Some(envelope.attributes);
        proof {
            assert(link.calls() =~= calls0 + generate_next_payload_spec(env0, w).calls);
            assert(env@ =~= env0.with_next_payload_id(id).with_payload_retrieved(
                (info.number + 1) as u64,
                id,
                generate_next_payload_spec(env0, w).env.latest_payload_built->Some_0,
            ));
        }
        Ok(())
    }
}

} // verus!
