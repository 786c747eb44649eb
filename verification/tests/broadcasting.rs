//! Payload generation, the two broadcast steps, single-node mining, and
//! sequences, driven against scripted peers.

use engine_actions::broadcast::BroadcastNextNewPayload;
use engine_actions::compose::{Action, ActionBox, ActionKind, Sequence};
use engine_actions::env::Environment;
use engine_actions::forkchoice::BroadcastLatestForkchoice;
use engine_actions::link::{CallTag, PeerScript, ScriptedLink};
use engine_actions::mine::AssertMineBlock;
use engine_actions::payload::GenerateNextPayload;
use engine_actions::pick::PickNextBlockProducer;
use engine_actions::random::{FixedRandom, OsRandom, RandomDraw, RandomSource};
use engine_actions::types::{Address, BlockData, BlockHeader, BlockInfo, Failure, ForkchoiceResult,
    Hash256, LinkError, PayloadAttributes, PayloadEnvelope, PayloadId, PayloadStatus, Uint256};

fn h(n: u128) -> Hash256 {
    Hash256 { hi: 0, lo: n }
}

fn silent_peer() -> PeerScript {
    let e = LinkError { code: 99 };
    PeerScript {
        latest_block: Err(e),
        latest_header: Err(e),
        fcu_v2: Err(e),
        fcu_v3: Err(e),
        get_payload_v2: Err(e),
        get_payload_v3: Err(e),
        new_payload: Err(e),
    }
}

fn attributes() -> PayloadAttributes {
    PayloadAttributes {
        timestamp: 777,
        prev_randao: h(40),
        suggested_fee_recipient: Address { hi: 0, lo: 1 },
        withdrawals: Some(Vec::new()),
        parent_beacon_block_root: Some(h(9)),
    }
}

fn block_with_root(number: u64, root: Option<Hash256>) -> BlockData {
    BlockData {
        header: BlockHeader {
            hash: h(30),
            number,
            timestamp: 0,
            difficulty: Uint256 { hi: 0, lo: 0 },
            mix_hash: h(0),
            extra_data: Vec::new(),
            parent_beacon_block_root: root,
        },
        transactions: Vec::new(),
        withdrawals: None,
    }
}

fn broadcasting_peer(number: u64, status: PayloadStatus) -> PeerScript {
    PeerScript {
        latest_block: Ok(Some(block_with_root(number, Some(h(9))))),
        new_payload: Ok(status),
        ..silent_peer()
    }
}

fn built_env() -> Environment {
    let mut env = Environment::new();
    env.latest_block_info = Some(BlockInfo { hash: h(5), number: 10 });
    env.latest_payload_built = Some(attributes());
    env
}

#[test]
fn broadcast_stops_at_first_valid_peer() {
    // Peer 0 answers "invalid", peer 1 "valid": the scan stops after peer
    // 1 and peer 2 is never contacted.
    let mut env = built_env();
    let mut link = ScriptedLink::new(vec![
        broadcasting_peer(10, PayloadStatus::Invalid),
        broadcasting_peer(10, PayloadStatus::Valid),
        broadcasting_peer(10, PayloadStatus::Valid),
    ]);
    let r = BroadcastNextNewPayload::new().execute(&mut env, &mut link);
    assert_eq!(r, Ok(()));
    assert_eq!(
        link.trace(),
        &vec![
            CallTag::LatestBlock { peer: 0 },
            CallTag::NewPayload { peer: 0, block_number: 10, parent_beacon_block_root: h(9) },
            CallTag::LatestBlock { peer: 1 },
            CallTag::NewPayload { peer: 1, block_number: 10, parent_beacon_block_root: h(9) },
        ]
    );
    let executed = env.latest_payload_executed.expect("recorded");
    assert_eq!(executed.timestamp, 777);
    assert_eq!(executed.prev_randao, h(40));
}

#[test]
fn broadcast_block_number_mismatch_is_fatal_not_a_skip() {
    // Peer 0 reports number 9 instead of 10: the step fails at once, even
    // though peer 1 would have matched and answered "valid".
    let mut env = built_env();
    let mut link = ScriptedLink::new(vec![
        broadcasting_peer(9, PayloadStatus::Valid),
        broadcasting_peer(10, PayloadStatus::Valid),
    ]);
    let r = BroadcastNextNewPayload::new().execute(&mut env, &mut link);
    assert_eq!(r, Err(Failure::BlockNumberMismatch { expected: 10, actual: 9 }));
    assert_eq!(link.trace(), &vec![CallTag::LatestBlock { peer: 0 }]);
    assert!(env.latest_payload_executed.is_none());
}

#[test]
fn broadcast_beacon_root_mismatch_is_fatal() {
    let mut env = built_env();
    let mut peer = broadcasting_peer(10, PayloadStatus::Valid);
    peer.latest_block = Ok(Some(block_with_root(10, Some(h(8)))));
    let mut link = ScriptedLink::new(vec![peer]);
    let r = BroadcastNextNewPayload::new().execute(&mut env, &mut link);
    assert_eq!(r, Err(Failure::BeaconRootMismatch { expected: h(9), actual: h(8) }));

    let mut env = built_env();
    let mut peer = broadcasting_peer(10, PayloadStatus::Valid);
    peer.latest_block = Ok(Some(block_with_root(10, None)));
    let mut link = ScriptedLink::new(vec![peer]);
    let r = BroadcastNextNewPayload::new().execute(&mut env, &mut link);
    assert_eq!(r, Err(Failure::BlockWithoutBeaconRoot));
}

#[test]
fn broadcast_exhaustion_and_missing_staging_fail() {
    let mut env = built_env();
    let mut link = ScriptedLink::new(vec![broadcasting_peer(10, PayloadStatus::Syncing)]);
    let r = BroadcastNextNewPayload::new().execute(&mut env, &mut link);
    assert_eq!(r, Err(Failure::NoBroadcastAccepted));

    let mut env = Environment::new();
    let mut link = ScriptedLink::new(vec![broadcasting_peer(10, PayloadStatus::Valid)]);
    let r = BroadcastNextNewPayload::new().execute(&mut env, &mut link);
    assert_eq!(r, Err(Failure::NoPayloadBuilt));

    let mut env = built_env();
    if let Some(p) = env.latest_payload_built.as_mut() {
        p.parent_beacon_block_root = None;
    }
    let mut link = ScriptedLink::new(vec![broadcasting_peer(10, PayloadStatus::Valid)]);
    let r = BroadcastNextNewPayload::new().execute(&mut env, &mut link);
    assert_eq!(r, Err(Failure::NoParentBeaconRoot));
}

#[test]
fn forkchoice_broadcast_reaches_every_peer() {
    let mut env = built_env();
    env.latest_payload_executed = Some(attributes());
    let fine = PeerScript {
        fcu_v3: Ok(ForkchoiceResult { payload_status: PayloadStatus::Valid, payload_id: None }),
        ..silent_peer()
    };
    let fine2 = PeerScript {
        fcu_v3: Ok(ForkchoiceResult { payload_status: PayloadStatus::Syncing, payload_id: None }),
        ..silent_peer()
    };
    let mut link = ScriptedLink::new(vec![fine, fine2]);
    let r = BroadcastLatestForkchoice::new().execute(&mut env, &mut link);
    assert_eq!(r, Ok(()));
    assert_eq!(
        link.trace(),
        &vec![
            CallTag::ForkchoiceUpdatedV3 { peer: 0, head: h(5), with_attributes: true },
            CallTag::ForkchoiceUpdatedV3 { peer: 1, head: h(5), with_attributes: true },
        ]
    );
}

#[test]
fn forkchoice_broadcast_aborts_on_any_call_failure() {
    let mut env = built_env();
    let fine = PeerScript {
        fcu_v3: Ok(ForkchoiceResult { payload_status: PayloadStatus::Valid, payload_id: None }),
        ..silent_peer()
    };
    let mut link = ScriptedLink::new(vec![fine, silent_peer()]);
    let r = BroadcastLatestForkchoice::new().execute(&mut env, &mut link);
    assert_eq!(r, Err(Failure::PeerCall(LinkError { code: 99 })));
    assert_eq!(link.trace().len(), 2);
}

#[test]
fn payload_generation_records_id_and_built_payload() {
    let mut env = built_env();
    env.payload_attributes.insert(10, attributes());
    let peer = PeerScript {
        fcu_v3: Ok(ForkchoiceResult {
            payload_status: PayloadStatus::Valid,
            payload_id: Some(PayloadId { raw: 42 }),
        }),
        get_payload_v3: Ok(PayloadEnvelope { block_hash: h(30), attributes: attributes() }),
        ..silent_peer()
    };
    let mut link = ScriptedLink::new(vec![peer]);
    let r = GenerateNextPayload::new().execute(&mut env, &mut link);
    assert_eq!(r, Ok(()));
    assert_eq!(env.next_payload_id, Some(PayloadId { raw: 42 }));
    assert_eq!(env.payload_id_history.get(11), Some(&PayloadId { raw: 42 }));
    assert_eq!(env.latest_payload_built.as_ref().map(|p| p.timestamp), Some(777));
    assert_eq!(
        link.trace(),
        &vec![
            CallTag::ForkchoiceUpdatedV3 { peer: 0, head: h(5), with_attributes: true },
            CallTag::GetPayloadV3 { peer: 0, id: PayloadId { raw: 42 } },
        ]
    );
}

#[test]
fn payload_generation_requires_staged_attributes_and_an_id() {
    let mut env = built_env();
    let mut link = ScriptedLink::new(vec![silent_peer()]);
    let r = GenerateNextPayload::new().execute(&mut env, &mut link);
    assert_eq!(r, Err(Failure::NoPayloadAttributes));

    let mut env = built_env();
    env.payload_attributes.insert(10, attributes());
    let peer = PeerScript {
        fcu_v3: Ok(ForkchoiceResult { payload_status: PayloadStatus::Valid, payload_id: None }),
        ..silent_peer()
    };
    let mut link = ScriptedLink::new(vec![peer]);
    let r = GenerateNextPayload::new().execute(&mut env, &mut link);
    assert_eq!(r, Err(Failure::NoPayloadId));
    assert_eq!(env.next_payload_id, None);
}

#[test]
fn mining_round_succeeds_only_with_valid_status_and_id() {
    let parent = block_with_root(10, None);
    let peer = PeerScript {
        latest_block: Ok(Some(parent)),
        fcu_v2: Ok(ForkchoiceResult {
            payload_status: PayloadStatus::Valid,
            payload_id: Some(PayloadId { raw: 8 }),
        }),
        get_payload_v2: Ok(PayloadEnvelope { block_hash: h(30), attributes: attributes() }),
        ..silent_peer()
    };
    let mut env = Environment::new();
    let mut link = ScriptedLink::new(vec![peer]);
    let action = AssertMineBlock::new(0, Vec::new(), None, attributes());
    let r = action.execute(&mut env, &mut link);
    assert_eq!(r, Ok(()));
    assert_eq!(
        link.trace(),
        &vec![
            CallTag::LatestBlock { peer: 0 },
            CallTag::ForkchoiceUpdatedV2 { peer: 0, head: h(30), with_attributes: true },
            CallTag::GetPayloadV2 { peer: 0, id: PayloadId { raw: 8 } },
        ]
    );

    let mut env = Environment::new();
    let mut link = ScriptedLink::new(vec![silent_peer()]);
    let action = AssertMineBlock::new(3, Vec::new(), None, attributes());
    assert_eq!(action.execute(&mut env, &mut link), Err(Failure::NodeIndexOutOfBounds));

    let syncing = PeerScript {
        latest_block: Ok(Some(block_with_root(10, None))),
        fcu_v2: Ok(ForkchoiceResult { payload_status: PayloadStatus::Syncing, payload_id: None }),
        ..silent_peer()
    };
    let mut link = ScriptedLink::new(vec![syncing]);
    let action = AssertMineBlock::new(0, Vec::new(), None, attributes());
    assert_eq!(action.execute(&mut env, &mut link), Err(Failure::PayloadNotValid));

    let no_id = PeerScript {
        latest_block: Ok(Some(block_with_root(10, None))),
        fcu_v2: Ok(ForkchoiceResult { payload_status: PayloadStatus::Valid, payload_id: None }),
        ..silent_peer()
    };
    let mut link = ScriptedLink::new(vec![no_id]);
    let action = AssertMineBlock::new(0, Vec::new(), None, attributes());
    assert_eq!(action.execute(&mut env, &mut link), Err(Failure::NoPayloadId));
}

#[test]
fn sequence_aborts_at_first_failure_and_skips_the_rest() {
    // [A, B, C]: A selects a producer and succeeds; B generates the next
    // payload and fails for want of staged attributes; C would scan again
    // but never runs — the trace holds A's single call only.
    let agreeing = PeerScript {
        latest_block: Ok(Some(block_with_root(10, None))),
        ..silent_peer()
    };
    let mut env = Environment::new();
    env.latest_block_info = Some(BlockInfo { hash: h(30), number: 10 });
    let mut link = ScriptedLink::new(vec![agreeing]);
    let mut rng = FixedRandom::new(vec![RandomDraw {
        prev_randao: h(1),
        fee_recipient: Address { hi: 0, lo: 2 },
    }]);
    let seq = Sequence::new(vec![
        ActionKind::Pick(PickNextBlockProducer::new()),
        ActionKind::GeneratePayload(GenerateNextPayload::new()),
        ActionKind::Pick(PickNextBlockProducer::new()),
    ]);
    let r = seq.execute(&mut env, &mut link, &mut rng);
    assert_eq!(r, Err(Failure::NoPayloadAttributes));
    assert_eq!(link.trace(), &vec![CallTag::LatestBlock { peer: 0 }]);
    assert_eq!(env.last_producer_idx, Some(0));
}

#[test]
fn nested_sequences_compose_and_boxes_execute() {
    let agreeing = PeerScript {
        latest_block: Ok(Some(block_with_root(10, None))),
        ..silent_peer()
    };
    let mut env = Environment::new();
    env.latest_block_info = Some(BlockInfo { hash: h(30), number: 10 });
    let mut link = ScriptedLink::new(vec![agreeing]);
    let mut rng = FixedRandom::new(Vec::new());
    let inner = Sequence::new(vec![ActionKind::Pick(PickNextBlockProducer::new())]);
    let outer = Sequence::new(vec![
        ActionKind::Nested(inner),
        ActionKind::Pick(PickNextBlockProducer::new()),
    ]);
    let r = ActionBox::new(ActionKind::Nested(outer)).execute(&mut env, &mut link, &mut rng);
    assert_eq!(r, Ok(()));
    assert_eq!(link.trace().len(), 2);
}

#[test]
fn every_step_runs_through_the_uniform_interface() {
    fn drive<A: Action>(
        action: &A,
        env: &mut Environment,
        link: &mut ScriptedLink,
        rng: &mut FixedRandom,
    ) -> Result<(), Failure> {
        action.run(env, link, rng)
    }
    let agreeing = PeerScript {
        latest_block: Ok(Some(block_with_root(10, None))),
        ..silent_peer()
    };
    let mut env = Environment::new();
    env.latest_block_info = Some(BlockInfo { hash: h(30), number: 10 });
    let mut link = ScriptedLink::new(vec![agreeing]);
    let mut rng = FixedRandom::new(Vec::new());
    let r = drive(&PickNextBlockProducer::new(), &mut env, &mut link, &mut rng);
    assert_eq!(r, Ok(()));
    let r = drive(
        &Sequence::new(vec![ActionKind::Pick(PickNextBlockProducer::new())]),
        &mut env,
        &mut link,
        &mut rng,
    );
    assert_eq!(r, Ok(()));
    assert_eq!(link.trace().len(), 2);
}

#[test]
fn table_returns_latest_insert_per_key() {
    let mut table: engine_actions::table::KeyedList<PayloadId> =
        engine_actions::table::KeyedList::new();
    assert!(table.get(1).is_none());
    table.insert(1, PayloadId { raw: 10 });
    table.insert(2, PayloadId { raw: 20 });
    table.insert(1, PayloadId { raw: 30 });
    assert_eq!(table.get(1), Some(&PayloadId { raw: 30 }));
    assert_eq!(table.get(2), Some(&PayloadId { raw: 20 }));
    assert!(table.get(3).is_none());
}

#[test]
fn os_randomness_draws_fresh_values() {
    let mut rng = OsRandom::new();
    let first = rng.fresh_draw();
    let second = rng.fresh_draw();
    // 52 random bytes per draw: two equal draws would mean the operating
    // system's randomness returned the same 104 bytes twice.
    assert!(first != second);
}
