//! Single-node mining: drive exactly one peer through one mining round with
//! caller-supplied attributes, and verify that a payload build started.

use vstd::prelude::*;

use crate::env::{EnvView, Environment};
use crate::link::{CallTag, EngineLink, PeerView};
use crate::outcome::Outcome;
use crate::types::{Failure, ForkchoiceState, Hash256, PayloadAttributes, PayloadStatus};

verus! {

/// Mines a single block on one peer: fetches the peer's latest block as
/// parent, issues a legacy fork-choice update carrying the supplied
/// attributes, requires a "valid" status and a payload identifier, and
/// retrieves the built payload. It neither broadcasts nor verifies
/// acceptance; callers compose those separately.
#[derive(Debug)]
pub struct AssertMineBlock {
    /// The index of the peer to mine on.
    pub node_idx: usize,
    /// The encoded transactions to include in the block.
    pub transactions: Vec<Vec<u8>>,
    /// The block hash the caller expects, if any.
    pub expected_hash: Option<Hash256>,
    /// The payload attributes to mine with.
    pub payload_attributes: PayloadAttributes,
}

impl AssertMineBlock {
    /// Creates a new single-node mining step.
    pub fn new(
        node_idx: usize,
        transactions: Vec<Vec<u8>>,
        expected_hash: Option<Hash256>,
        payload_attributes: PayloadAttributes,
    ) -> (r: AssertMineBlock)
        ensures
            r.node_idx == node_idx,
            r.transactions@ == transactions@,
            r.expected_hash == expected_hash,
            r.payload_attributes@ == payload_attributes@,
    {
        AssertMineBlock { node_idx, transactions, expected_hash, payload_attributes }
    }
}

/// What single-node mining denotes: an out-of-range index halts; the
/// peer's latest block supplies the parent hash for a fork-choice update
/// whose head, safe and finalized hashes all equal it; only a "valid"
/// status with a payload identifier, whose payload can then be retrieved,
/// is success. The context is never written.
pub open spec fn assert_mine_block_spec(node_idx: usize, env: EnvView, w: Seq<PeerView>) -> Outcome {
    if node_idx >= w.len() {
        Outcome::halt(env, Failure::NodeIndexOutOfBounds)
    } else {
        let lb = CallTag::LatestBlock { peer: node_idx };
        match w[node_idx as int].latest_block {
            Err(e) => Outcome { env, result: Err(Failure::PeerCall(e)), calls: seq![lb], draws: 0 },
            Ok(None) => Outcome {
                env,
                result: Err(Failure::MissingLatestBlock),
                calls: seq![lb],
                draws: 0,
            },
            Ok(Some(block)) => {
                let fcu = CallTag::ForkchoiceUpdatedV2 {
                    peer: node_idx,
                    head: block.header.hash,
                    with_attributes: true,
                };
                match w[node_idx as int].fcu_v2 {
                    Err(e) => Outcome {
                        env,
                        result: Err(Failure::PeerCall(e)),
                        calls: seq![lb, fcu],
                        draws: 0,
                    },
                    Ok(resp) => {
                        if !(resp.payload_status is Valid) {
                            Outcome {
                                env,
                                result: Err(Failure::PayloadNotValid),
                                calls: seq![lb, fcu],
                                draws: 0,
                            }
                        } else {
                            match resp.payload_id {
                                None => Outcome {
                                    env,
                                    result: Err(Failure::NoPayloadId),
                                    calls: seq![lb, fcu],
                                    draws: 0,
                                },
                                Some(id) => {
                                    let gp = CallTag::GetPayloadV2 { peer: node_idx, id };
                                    match w[node_idx as int].get_payload_v2 {
                                        Err(e) => Outcome {
                                            env,
                                            result: Err(Failure::PeerCall(e)),
                                            calls: seq![lb, fcu, gp],
                                            draws: 0,
                                        },
                                        Ok(_) => Outcome {
                                            env,
                                            result: Ok(()),
                                            calls: seq![lb, fcu, gp],
                                            draws: 0,
                                        },
                                    }
                                },
                            }
                        }
                    },
                }
            },
        }
    }
}

impl AssertMineBlock {
    /// Runs the mining round against the context and the peers.
    pub fn execute<L: EngineLink>(&self, env: &mut Environment, link: &mut L) -> (r: Result<
        (),
        Failure,
    >)
        ensures
            ({
                let o = assert_mine_block_spec(self.node_idx, old(env)@, old(link).world());
                &&& final(env)@ == o.env
                &&& r == o.result
                &&& final(link).world() == old(link).world()
                &&& final(link).calls() == old(link).calls() + o.calls
            }),
    {
        let ghost env0 = old(env)@;
        let ghost w = old(link).world();
        let ghost calls0 = old(link).calls();
        let ghost full = assert_mine_block_spec(self.node_idx, env0, w);
        let count = link.num_peers();
        if self.node_idx >= count {
            proof {
                assert(calls0 + full.calls =~= calls0);
            }
            return Err(Failure::NodeIndexOutOfBounds);
        }
        let parent_hash = match link.latest_block(self.node_idx) {
            Ok(Some(block)) => block.header.hash,
            Ok(None) => {
                proof {
                    assert(calls0 + full.calls =~= link.calls());
                }
                return Err(Failure::MissingLatestBlock);
            },
            Err(e) => {
                proof {
                    assert(calls0 + full.calls =~= link.calls());
                }
                return Err(Failure::PeerCall(e));
            },
        };
        let state = ForkchoiceState::all(parent_hash);
        let fcu_result = match link.forkchoice_updated_v2(
            self.node_idx,
            state,
            Some(&self.payload_attributes),
        ) {
            Ok(resp) => resp,
            Err(e) => {
                proof {
                    assert(calls0 + full.calls =~= link.calls());
                }
                return Err(Failure::PeerCall(e));
            },
        };
        match fcu_result.payload_status {
            PayloadStatus::Valid => {},
            _ => {
                proof {
                    assert(calls0 + full.calls =~= link.calls());
                }
                return Err(Failure::PayloadNotValid);
            },
        }
        let id = match fcu_result.payload_id {
            Some(id) => id,
            None => {
                proof {
                    assert(calls0 + full.calls =~= link.calls());
                }
                return Err(Failure::NoPayloadId);
            },
        };
        match link.get_payload_v2(self.node_idx, id) {
            Ok(_) => {
                proof {
                    assert(calls0 + full.calls =~= link.calls());
                }
                Ok(())
            },
            Err(e) => {
                proof {
                    assert(calls0 + full.calls =~= link.calls());
                }
                Err(Failure::PeerCall(e))
            },
        }
    }
}

} // verus!
