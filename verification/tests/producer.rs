//! Producer selection, attribute generation, and the block-production
//! composite, driven against scripted peers.

use engine_actions::attributes::GeneratePayloadAttributes;
use engine_actions::compose::ProduceBlocks;
use engine_actions::env::Environment;
use engine_actions::link::{CallTag, PeerScript, ScriptedLink};
use engine_actions::pick::PickNextBlockProducer;
use engine_actions::random::{FixedRandom, RandomDraw};
use engine_actions::types::{Address, BlockData, BlockHeader, BlockInfo, Failure, Hash256,
    LinkError, Uint256};

fn h(n: u128) -> Hash256 {
    Hash256 { hi: 0, lo: n }
}

fn a(n: u128) -> Address {
    Address { hi: 0, lo: n }
}

fn header(hash: Hash256, number: u64) -> BlockHeader {
    BlockHeader {
        hash,
        number,
        timestamp: 0,
        difficulty: Uint256 { hi: 0, lo: 0 },
        mix_hash: h(0),
        extra_data: Vec::new(),
        parent_beacon_block_root: None,
    }
}

fn block(hash: Hash256, number: u64) -> BlockData {
    BlockData { header: header(hash, number), transactions: Vec::new(), withdrawals: None }
}

fn silent_peer() -> PeerScript {
    let e = LinkError { code: 99 };
    PeerScript {
        latest_block: Err(e),
        latest_header: Err(e),
        fcu_v2: Err(e),
        fcu_v3: Err(e),
        get_payload_v2: Err(e),
        get_payload_v3: Err(e),
        new_payload: Err(e),
    }
}

fn peer_with_latest(hash: Hash256, number: u64) -> PeerScript {
    PeerScript { latest_block: Ok(Some(block(hash, number))), ..silent_peer() }
}

fn peer_without_block() -> PeerScript {
    PeerScript { latest_block: Ok(None), ..silent_peer() }
}

fn env_at(hash: Hash256, number: u64) -> Environment {
    let mut env = Environment::new();
    env.latest_block_info = Some(BlockInfo { hash, number });
    env
}

fn draws(n: u128) -> RandomDraw {
    RandomDraw { prev_randao: h(n), fee_recipient: a(n) }
}

#[test]
fn scan_starts_at_number_plus_one_mod_count() {
    // Three peers, latest number 10: the scan starts at 11 mod 3 = 2 and
    // visits [2, 0, 1]; nobody reports a block, so selection fails.
    let mut env = env_at(h(5), 10);
    let mut link = ScriptedLink::new(vec![
        peer_without_block(),
        peer_without_block(),
        peer_without_block(),
    ]);
    let r = PickNextBlockProducer::new().execute(&mut env, &mut link);
    assert_eq!(r, Err(Failure::NoProducerFound));
    assert_eq!(
        link.trace(),
        &vec![
            CallTag::LatestBlock { peer: 2 },
            CallTag::LatestBlock { peer: 0 },
            CallTag::LatestBlock { peer: 1 },
        ]
    );
}

#[test]
fn first_matching_peer_in_scan_order_wins() {
    // Scan order is [2, 0, 1]; peer 2 lags, peer 0 agrees: peer 0 is the
    // producer and peer 1 is never asked.
    let mut env = env_at(h(5), 10);
    let mut link = ScriptedLink::new(vec![
        peer_with_latest(h(5), 10),
        peer_with_latest(h(5), 10),
        peer_with_latest(h(4), 9),
    ]);
    let r = PickNextBlockProducer::new().execute(&mut env, &mut link);
    assert_eq!(r, Ok(()));
    assert_eq!(env.last_producer_idx, Some(0));
    assert_eq!(
        link.trace(),
        &vec![CallTag::LatestBlock { peer: 2 }, CallTag::LatestBlock { peer: 0 }]
    );
}

#[test]
fn selection_fails_only_when_no_peer_agrees() {
    // A peer whose hash differs and a peer whose number differs both fail
    // the match; one exact agreement suffices.
    let mut env = env_at(h(5), 10);
    let mut link = ScriptedLink::new(vec![
        peer_with_latest(h(6), 10),
        peer_with_latest(h(5), 11),
    ]);
    let r = PickNextBlockProducer::new().execute(&mut env, &mut link);
    assert_eq!(r, Err(Failure::NoProducerFound));
    assert_eq!(env.last_producer_idx, None);

    let mut env = env_at(h(5), 10);
    let mut link = ScriptedLink::new(vec![
        peer_with_latest(h(6), 10),
        peer_with_latest(h(5), 10),
    ]);
    let r = PickNextBlockProducer::new().execute(&mut env, &mut link);
    assert_eq!(r, Ok(()));
    assert_eq!(env.last_producer_idx, Some(1));
}

#[test]
fn selection_requires_peers_and_block_info() {
    let mut env = env_at(h(5), 10);
    let mut link = ScriptedLink::new(Vec::new());
    let r = PickNextBlockProducer::new().execute(&mut env, &mut link);
    assert_eq!(r, Err(Failure::NoPeers));

    let mut env = Environment::new();
    let mut link = ScriptedLink::new(vec![peer_with_latest(h(5), 10)]);
    let r = PickNextBlockProducer::new().execute(&mut env, &mut link);
    assert_eq!(r, Err(Failure::NoLatestBlockInfo));
}

#[test]
fn selection_aborts_on_peer_call_failure() {
    let mut env = env_at(h(5), 10);
    let mut link = ScriptedLink::new(vec![silent_peer(), peer_with_latest(h(5), 10)]);
    // Scan order for number 10 over 2 peers starts at 11 mod 2 = 1; peer 1
    // agrees, so the failing peer 0 is never reached.
    let r = PickNextBlockProducer::new().execute(&mut env, &mut link);
    assert_eq!(r, Ok(()));
    assert_eq!(env.last_producer_idx, Some(1));

    // With number 9 the scan starts at peer 0, whose call fails.
    let mut env = env_at(h(5), 9);
    let mut link = ScriptedLink::new(vec![silent_peer(), peer_with_latest(h(5), 9)]);
    let r = PickNextBlockProducer::new().execute(&mut env, &mut link);
    assert_eq!(r, Err(Failure::PeerCall(LinkError { code: 99 })));
}

#[test]
fn attributes_are_staged_under_successor_key_only() {
    let mut env = env_at(h(5), 10);
    env.latest_header_time = 100;
    env.block_timestamp_increment = 5;
    let mut rng = FixedRandom::new(vec![draws(7)]);
    let r = GeneratePayloadAttributes::new().execute(&mut env, &mut rng);
    assert_eq!(r, Ok(()));
    let staged = env.payload_attributes.get(11).expect("staged under number + 1");
    assert_eq!(staged.timestamp, 105);
    assert_eq!(staged.prev_randao, h(7));
    assert_eq!(staged.suggested_fee_recipient, a(7));
    assert_eq!(staged.withdrawals.as_ref().map(|w| w.len()), Some(0));
    assert_eq!(staged.parent_beacon_block_root, Some(h(0)));
    assert!(env.payload_attributes.get(10).is_none());
    assert!(env.payload_attributes.get(12).is_none());
}

#[test]
fn attributes_twice_stage_same_timestamp() {
    // The step itself never advances the header time: with no acceptance
    // in between, both generations compute the same timestamp.
    let mut env = env_at(h(5), 10);
    env.latest_header_time = 100;
    env.block_timestamp_increment = 5;
    let mut rng = FixedRandom::new(vec![draws(1), draws(2)]);
    assert_eq!(GeneratePayloadAttributes::new().execute(&mut env, &mut rng), Ok(()));
    assert_eq!(env.payload_attributes.get(11).unwrap().timestamp, 105);
    assert_eq!(GeneratePayloadAttributes::new().execute(&mut env, &mut rng), Ok(()));
    let staged = env.payload_attributes.get(11).unwrap();
    assert_eq!(staged.timestamp, 105);
    assert_eq!(staged.prev_randao, h(2));
}

#[test]
fn attributes_require_block_info_and_reject_overflow() {
    let mut env = Environment::new();
    let mut rng = FixedRandom::new(vec![draws(1)]);
    let r = GeneratePayloadAttributes::new().execute(&mut env, &mut rng);
    assert_eq!(r, Err(Failure::NoLatestBlockInfo));

    let mut env = env_at(h(5), 10);
    env.latest_header_time = u64::MAX;
    env.block_timestamp_increment = 1;
    let r = GeneratePayloadAttributes::new().execute(&mut env, &mut rng);
    assert_eq!(r, Err(Failure::ArithmeticOverflow));

    let mut env = env_at(h(5), u64::MAX);
    let r = GeneratePayloadAttributes::new().execute(&mut env, &mut rng);
    assert_eq!(r, Err(Failure::ArithmeticOverflow));
}

#[test]
fn produce_blocks_runs_the_pair_three_times_in_order() {
    // One agreeing peer: each round scans once (index 0) and stages
    // attributes; three rounds make exactly three scans, in order, and the
    // last round's draw is the one left staged.
    let mut env = env_at(h(5), 10);
    env.latest_header_time = 100;
    env.block_timestamp_increment = 5;
    let mut link = ScriptedLink::new(vec![peer_with_latest(h(5), 10)]);
    let mut rng = FixedRandom::new(vec![draws(1), draws(2), draws(3)]);
    let r = ProduceBlocks::new(3).execute(&mut env, &mut link, &mut rng);
    assert_eq!(r, Ok(()));
    assert_eq!(
        link.trace(),
        &vec![
            CallTag::LatestBlock { peer: 0 },
            CallTag::LatestBlock { peer: 0 },
            CallTag::LatestBlock { peer: 0 },
        ]
    );
    assert_eq!(env.payload_attributes.get(11).unwrap().prev_randao, h(3));
    assert_eq!(env.last_producer_idx, Some(0));
}

#[test]
fn produce_blocks_aborts_when_a_round_fails() {
    // No peer agrees: the first round's selection fails and no attributes
    // are staged.
    let mut env = env_at(h(5), 10);
    let mut link = ScriptedLink::new(vec![peer_with_latest(h(6), 10)]);
    let mut rng = FixedRandom::new(vec![draws(1)]);
    let r = ProduceBlocks::new(2).execute(&mut env, &mut link, &mut rng);
    assert_eq!(r, Err(Failure::NoProducerFound));
    assert!(env.payload_attributes.get(11).is_none());
    assert_eq!(link.trace(), &vec![CallTag::LatestBlock { peer: 0 }]);
}

#[test]
fn produce_blocks_zero_rounds_does_nothing() {
    let mut env = env_at(h(5), 10);
    let mut link = ScriptedLink::new(vec![peer_with_latest(h(5), 10)]);
    let mut rng = FixedRandom::new(Vec::new());
    let r = ProduceBlocks::new(0).execute(&mut env, &mut link, &mut rng);
    assert_eq!(r, Ok(()));
    assert_eq!(link.trace().len(), 0);
}
