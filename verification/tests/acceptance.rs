//! Acceptance verification against scripted peers: the four predicates,
//! the first-passing-peer update, and the staging requirements.

use engine_actions::accept::CheckPayloadAccepted;
use engine_actions::env::Environment;
use engine_actions::link::{PeerScript, ScriptedLink};
use engine_actions::types::{Address, BlockHeader, BlockInfo, Failure, Hash256, LinkError,
    PayloadAttributes, PayloadEnvelope, PayloadId, Uint256};

fn h(n: u128) -> Hash256 {
    Hash256 { hi: 0, lo: n }
}

fn silent_peer() -> PeerScript {
    let e = LinkError { code: 99 };
    PeerScript {
        latest_block: Err(e),
        latest_header: Err(e),
        fcu_v2: Err(e),
        fcu_v3: Err(e),
        get_payload_v2: Err(e),
        get_payload_v3: Err(e),
        new_payload: Err(e),
    }
}

fn built_attributes() -> PayloadAttributes {
    PayloadAttributes {
        timestamp: 777,
        prev_randao: h(40),
        suggested_fee_recipient: Address { hi: 0, lo: 1 },
        withdrawals: Some(Vec::new()),
        parent_beacon_block_root: Some(h(0)),
    }
}

/// A header that passes all four acceptance predicates against
/// `built_attributes` and a payload whose block hash is `h(30)`.
fn passing_header() -> BlockHeader {
    BlockHeader {
        hash: h(30),
        number: 11,
        timestamp: 777,
        difficulty: Uint256 { hi: 0, lo: 0 },
        mix_hash: h(40),
        extra_data: vec![0u8; 33],
        parent_beacon_block_root: None,
    }
}

fn checking_peer(header: BlockHeader) -> PeerScript {
    PeerScript {
        latest_header: Ok(Some(header)),
        get_payload_v3: Ok(PayloadEnvelope { block_hash: h(30), attributes: built_attributes() }),
        ..silent_peer()
    }
}

fn staged_env() -> Environment {
    let mut env = Environment::new();
    env.latest_block_info = Some(BlockInfo { hash: h(5), number: 10 });
    env.payload_id_history.insert(11, PayloadId { raw: 7 });
    env.latest_payload_built = Some(built_attributes());
    env
}

#[test]
fn acceptance_succeeds_when_all_four_predicates_hold() {
    let mut env = staged_env();
    let mut link = ScriptedLink::new(vec![checking_peer(passing_header())]);
    let r = CheckPayloadAccepted::new().execute(&mut env, &mut link);
    assert_eq!(r, Ok(()));
    assert_eq!(env.latest_header_time, 777);
    assert_eq!(env.latest_fork_choice_state.head_block_hash, h(30));
    assert_eq!(env.latest_block_info, Some(BlockInfo { hash: h(30), number: 11 }));
}

#[test]
fn hash_mismatch_skips_the_peer() {
    let mut env = staged_env();
    let mut header = passing_header();
    header.hash = h(31);
    let mut link = ScriptedLink::new(vec![checking_peer(header)]);
    let r = CheckPayloadAccepted::new().execute(&mut env, &mut link);
    assert_eq!(r, Err(Failure::NoPayloadAccepted));
    assert_eq!(env.latest_header_time, 0);
}

#[test]
fn nonzero_difficulty_skips_the_peer() {
    let mut env = staged_env();
    let mut header = passing_header();
    header.difficulty = Uint256 { hi: 0, lo: 1 };
    let mut link = ScriptedLink::new(vec![checking_peer(header)]);
    let r = CheckPayloadAccepted::new().execute(&mut env, &mut link);
    assert_eq!(r, Err(Failure::NoPayloadAccepted));
}

#[test]
fn mix_hash_mismatch_skips_the_peer() {
    let mut env = staged_env();
    let mut header = passing_header();
    header.mix_hash = h(41);
    let mut link = ScriptedLink::new(vec![checking_peer(header)]);
    let r = CheckPayloadAccepted::new().execute(&mut env, &mut link);
    assert_eq!(r, Err(Failure::NoPayloadAccepted));
}

#[test]
fn extra_data_of_exactly_32_bytes_skips_the_peer() {
    let mut env = staged_env();
    let mut header = passing_header();
    header.extra_data = vec![0u8; 32];
    let mut link = ScriptedLink::new(vec![checking_peer(header)]);
    let r = CheckPayloadAccepted::new().execute(&mut env, &mut link);
    assert_eq!(r, Err(Failure::NoPayloadAccepted));
}

#[test]
fn first_passing_peer_supplies_the_update() {
    // Peer 0 fails the extra-data predicate, peer 1 passes with a header
    // of its own: the run succeeds and the update carries peer 1's header.
    let mut env = staged_env();
    let mut short = passing_header();
    short.extra_data = vec![0u8; 32];
    let mut other = passing_header();
    other.number = 12;
    let mut link = ScriptedLink::new(vec![checking_peer(short), checking_peer(other)]);
    let r = CheckPayloadAccepted::new().execute(&mut env, &mut link);
    assert_eq!(r, Ok(()));
    assert_eq!(env.latest_block_info, Some(BlockInfo { hash: h(30), number: 12 }));
    assert_eq!(env.latest_header_time, 777);
}

#[test]
fn later_passing_peers_do_not_overwrite_the_update() {
    let mut env = staged_env();
    let mut second = passing_header();
    second.number = 12;
    let mut link = ScriptedLink::new(vec![
        checking_peer(passing_header()),
        checking_peer(second),
    ]);
    let r = CheckPayloadAccepted::new().execute(&mut env, &mut link);
    assert_eq!(r, Ok(()));
    // Peer 0 passed first; peer 1's differing number never lands.
    assert_eq!(env.latest_block_info, Some(BlockInfo { hash: h(30), number: 11 }));
}

#[test]
fn acceptance_requires_recorded_payload_id() {
    let mut env = staged_env();
    env.payload_id_history = engine_actions::table::KeyedList::new();
    let mut link = ScriptedLink::new(vec![checking_peer(passing_header())]);
    let r = CheckPayloadAccepted::new().execute(&mut env, &mut link);
    assert_eq!(r, Err(Failure::PayloadIdNotFound));
}

#[test]
fn acceptance_aborts_on_missing_header_or_failed_call() {
    let mut env = staged_env();
    let mut peer = checking_peer(passing_header());
    peer.latest_header = Ok(None);
    let mut link = ScriptedLink::new(vec![peer]);
    let r = CheckPayloadAccepted::new().execute(&mut env, &mut link);
    assert_eq!(r, Err(Failure::MissingLatestHeader));

    let mut env = staged_env();
    let mut peer = checking_peer(passing_header());
    peer.get_payload_v3 = Err(LinkError { code: 3 });
    let mut link = ScriptedLink::new(vec![peer]);
    let r = CheckPayloadAccepted::new().execute(&mut env, &mut link);
    assert_eq!(r, Err(Failure::PeerCall(LinkError { code: 3 })));
}

#[test]
fn acceptance_over_no_peers_fails_by_exhaustion() {
    let mut env = staged_env();
    let mut link = ScriptedLink::new(Vec::new());
    let r = CheckPayloadAccepted::new().execute(&mut env, &mut link);
    assert_eq!(r, Err(Failure::NoPayloadAccepted));
}
