//! The library's laws: properties of the step outcome functions that hold
//! for every context, every peer count and every set of answers, each
//! proved once and for all.

use vstd::prelude::*;

use vstd::arithmetic::div_mod::{lemma_add_mod_noop_right, lemma_mod_bound, lemma_small_mod};

use crate::accept::{acceptance_passes, check_payload_accepted_spec, check_scan};
use crate::attributes::generate_payload_attributes_spec;
use crate::broadcast::{broadcast_next_new_payload_spec, broadcast_scan};
use crate::compose::{action_outcome, produce_outcome, seq_outcome, ActionView};
use crate::env::EnvView;
use crate::link::{CallTag, PeerView};
use crate::outcome::Outcome;
use crate::pick::{block_matches, pick_next_block_producer_spec, pick_scan, scan_index, scan_start};
use crate::random::RandomDraw;
use crate::types::{BlockHeaderView, BlockInfo, BlockView, Failure, Hash256, LinkError,
    PayloadId, PayloadStatus};

verus! {

/// The header a peer's latest-header answer carries.
pub open spec fn peer_header(w: Seq<PeerView>, j: int) -> BlockHeaderView {
    w[j].latest_header->Ok_0->Some_0
}

/// The block a peer's latest-block answer carries.
pub open spec fn peer_block(w: Seq<PeerView>, j: int) -> BlockView {
    w[j].latest_block->Ok_0->Some_0
}

/// The execution block hash a peer's payload retrieval carries.
pub open spec fn peer_envelope_hash(w: Seq<PeerView>, j: int) -> Hash256 {
    w[j].get_payload_v3->Ok_0.block_hash
}

/// Whether a peer answers the acceptance scan without aborting it: its
/// latest-header query reports a header and its payload retrieval succeeds.
pub open spec fn answers_checks(w: Seq<PeerView>, j: int) -> bool {
    &&& w[j].latest_header matches Ok(Some(_))
    &&& w[j].get_payload_v3 is Ok
}

/// For all peer counts `P >= 1` and block numbers `N`, the producer scan
/// starts at index `(N + 1) mod P`, and its `k`-th peer call goes to index
/// `((N + 1) mod P + k) mod P`: round-robin from the start index, wrapping.
pub proof fn lemma_producer_scan_order(env: EnvView, w: Seq<PeerView>, k: int)
    requires
        w.len() >= 1,
        (env.latest_block_info is Some),
        0 <= k < pick_next_block_producer_spec(env, w).calls.len(),
    ensures
        scan_start(env.latest_block_info->Some_0.number, w.len() as int) == (
        env.latest_block_info->Some_0.number + 1) % (w.len() as int),
        pick_next_block_producer_spec(env, w).calls[k] == (CallTag::LatestBlock {
            peer: scan_index(env.latest_block_info->Some_0.number, w.len() as int, k) as usize,
        }),
{
    lemma_pick_scan_call_order(env, w, env.latest_block_info->Some_0, 0, k);
}

/// The `k`-th call of the scan from offset `i` goes to the peer at offset
/// `i + k` of the round-robin order.
proof fn lemma_pick_scan_call_order(env: EnvView, w: Seq<PeerView>, info: BlockInfo, i: int, k: int)
    requires
        0 < w.len(),
        0 <= i <= w.len(),
        0 <= k < pick_scan(env, w, info, i).calls.len(),
    ensures
        pick_scan(env, w, info, i).calls[k] == (CallTag::LatestBlock {
            peer: scan_index(info.number, w.len() as int, i + k) as usize,
        }),
    decreases w.len() - i,
{
    if k > 0 {
        lemma_pick_scan_call_order(env, w, info, i + 1, k - 1);
    }
}

/// The scan from offset `i` fails exactly when no peer it still visits
/// reports the agreed block, provided no peer call itself fails.
proof fn lemma_pick_scan_fails_iff(env: EnvView, w: Seq<PeerView>, info: BlockInfo, i: int)
    requires
        0 < w.len(),
        0 <= i <= w.len(),
        forall|j: int| 0 <= j < w.len() ==> !((#[trigger] w[j].latest_block) is Err),
    ensures
        (pick_scan(env, w, info, i).result is Err) <==> (forall|k: int|
            i <= k < w.len() ==> !block_matches(
                w[scan_index(info.number, w.len() as int, k)].latest_block,
                info,
            )),
    decreases w.len() - i,
{
    if i < w.len() {
        lemma_mod_bound(scan_start(info.number, w.len() as int) + i, w.len() as int);
        lemma_mod_bound(info.number + 1, w.len() as int);
        lemma_pick_scan_fails_iff(env, w, info, i + 1);
    }
}

/// Every peer index is visited by the round-robin scan at some offset.
proof fn lemma_scan_surjective(number: u64, count: int, j: int)
    requires
        0 < count,
        0 <= j < count,
    ensures
        exists|k: int| 0 <= k < count && #[trigger] scan_index(number, count, k) == j,
{
    let start = scan_start(number, count);
    lemma_mod_bound(number + 1, count);
    let k = (j - start) % count;
    lemma_mod_bound(j - start, count);
    lemma_add_mod_noop_right(start, j - start, count);
    lemma_small_mod(j as nat, count as nat);
    assert(scan_index(number, count, k) == j);
}

/// Producer selection fails exactly when no peer's reported latest block
/// has both hash and number equal to the stored agreed block, provided no
/// peer call itself fails.
pub proof fn lemma_pick_fails_iff_no_match(env: EnvView, w: Seq<PeerView>)
    requires
        w.len() >= 1,
        (env.latest_block_info is Some),
        forall|j: int| 0 <= j < w.len() ==> !((#[trigger] w[j].latest_block) is Err),
    ensures
        (pick_next_block_producer_spec(env, w).result is Err) <==> (forall|j: int|
            0 <= j < w.len() ==> !block_matches(
                (#[trigger] w[j]).latest_block,
                env.latest_block_info->Some_0,
            )),
{
    let info = env.latest_block_info->Some_0;
    let count = w.len() as int;
    lemma_pick_scan_fails_iff(env, w, info, 0);
    if pick_next_block_producer_spec(env, w).result is Err {
        assert forall|j: int| 0 <= j < w.len() implies !block_matches(
            (#[trigger] w[j]).latest_block,
            info,
        ) by {
            lemma_scan_surjective(info.number, count, j);
            let k = choose|k: int| 0 <= k < count && #[trigger] scan_index(info.number, count, k)
                == j;
            assert(!block_matches(w[scan_index(info.number, count, k)].latest_block, info));
        }
    } else {
        if forall|j: int|
            0 <= j < w.len() ==> !block_matches((#[trigger] w[j]).latest_block, info) {
            assert forall|k: int| 0 <= k < w.len() implies !block_matches(
                w[#[trigger] scan_index(info.number, count, k)].latest_block,
                info,
            ) by {
                lemma_mod_bound(scan_start(info.number, count) + k, count);
                lemma_mod_bound(info.number + 1, count);
            }
        }
    }
}

/// Generating attributes stages the bundle under exactly the key one past
/// the agreed block number — the staged timestamp is the latest header
/// time plus the configured increment — and under no other key: every
/// other key's presence and value are untouched.
pub proof fn lemma_attributes_key_and_timestamp(env: EnvView, draws: Seq<RandomDraw>)
    requires
        (env.latest_block_info is Some),
        env.latest_header_time + env.block_timestamp_increment <= u64::MAX,
        env.latest_block_info->Some_0.number + 1 <= u64::MAX,
    ensures
        ({
            let key = (env.latest_block_info->Some_0.number + 1) as u64;
            let o = generate_payload_attributes_spec(env, draws);
            &&& o.result is Ok
            &&& o.env.payload_attributes.contains_key(key)
            &&& o.env.payload_attributes[key].timestamp == env.latest_header_time
                + env.block_timestamp_increment
            &&& forall|k: u64|
                k != key ==> #[trigger] o.env.payload_attributes.contains_key(k)
                    == env.payload_attributes.contains_key(k)
            &&& forall|k: u64|
                k != key && env.payload_attributes.contains_key(k)
                    ==> #[trigger] o.env.payload_attributes[k] == env.payload_attributes[k]
        }),
{
}

/// Two attribute generations with no intervening header update stage the
/// same timestamp under the same key: the step itself never advances the
/// latest header time, which only acceptance verification moves.
pub proof fn lemma_attributes_twice_same_timestamp(
    env: EnvView,
    d1: Seq<RandomDraw>,
    d2: Seq<RandomDraw>,
)
    requires
        (env.latest_block_info is Some),
        env.latest_header_time + env.block_timestamp_increment <= u64::MAX,
        env.latest_block_info->Some_0.number + 1 <= u64::MAX,
    ensures
        ({
            let key = (env.latest_block_info->Some_0.number + 1) as u64;
            let first = generate_payload_attributes_spec(env, d1);
            let second = generate_payload_attributes_spec(first.env, d2);
            &&& second.result is Ok
            &&& second.env.payload_attributes[key].timestamp == env.latest_header_time
                + env.block_timestamp_increment
            &&& first.env.payload_attributes[key].timestamp
                == second.env.payload_attributes[key].timestamp
        }),
{
}

/// The acceptance scan from peer `i` succeeds exactly when a pass happened
/// before `i` or some later peer passes all four predicates, provided every
/// peer answers; and once a pass has happened, the context never changes
/// again.
proof fn lemma_check_scan_result(
    env: EnvView,
    w: Seq<PeerView>,
    id: PayloadId,
    i: int,
    accepted: bool,
)
    requires
        0 <= i <= w.len(),
        (env.latest_payload_built is Some),
        forall|j: int| 0 <= j < w.len() ==> #[trigger] answers_checks(w, j),
    ensures
        (check_scan(env, w, id, i, accepted).result is Ok) <==> (accepted || exists|j: int|
            i <= j < w.len() && #[trigger] acceptance_passes(
                peer_header(w, j),
                env.latest_payload_built->Some_0,
                peer_envelope_hash(w, j),
            )),
        accepted ==> check_scan(env, w, id, i, accepted).env == env,
    decreases w.len() - i,
{
    if i < w.len() {
        assert(answers_checks(w, i));
        let h = peer_header(w, i);
        let built = env.latest_payload_built->Some_0;
        let pass = acceptance_passes(h, built, peer_envelope_hash(w, i));
        let env1 = if pass && !accepted {
            env.with_acceptance(built.timestamp, h.hash, h.number)
        } else {
            env
        };
        lemma_check_scan_result(env1, w, id, i + 1, accepted || pass);
    }
}

/// Acceptance verification succeeds exactly when some peer passes all four
/// predicates at once — hash match, zero difficulty, mix-hash equal to the
/// staged randomness, extra-data longer than 32 bytes — provided every
/// peer answers and the context is staged for the check.
pub proof fn lemma_acceptance_iff_all_predicates(env: EnvView, w: Seq<PeerView>)
    requires
        (env.latest_block_info is Some),
        env.latest_block_info->Some_0.number + 1 <= u64::MAX,
        env.payload_id_history.contains_key((env.latest_block_info->Some_0.number + 1) as u64),
        (env.latest_payload_built is Some),
        forall|j: int| 0 <= j < w.len() ==> #[trigger] answers_checks(w, j),
    ensures
        (check_payload_accepted_spec(env, w).result is Ok) <==> (exists|j: int|
            0 <= j < w.len() && #[trigger] acceptance_passes(
                peer_header(w, j),
                env.latest_payload_built->Some_0,
                peer_envelope_hash(w, j),
            )),
{
    let id = env.payload_id_history[(env.latest_block_info->Some_0.number + 1) as u64];
    lemma_check_scan_result(env, w, id, 0, false);
}

/// When the first peer fails a predicate and the second passes all four,
/// acceptance verification still succeeds, and the context update comes
/// from the second peer's header: its hash and number become the agreed
/// block, its hash becomes the fork-choice head, and the staged payload's
/// timestamp becomes the latest header time.
pub proof fn lemma_acceptance_uses_first_passing_peer(env: EnvView, w: Seq<PeerView>)
    requires
        w.len() >= 2,
        (env.latest_block_info is Some),
        env.latest_block_info->Some_0.number + 1 <= u64::MAX,
        env.payload_id_history.contains_key((env.latest_block_info->Some_0.number + 1) as u64),
        (env.latest_payload_built is Some),
        forall|j: int| 0 <= j < w.len() ==> #[trigger] answers_checks(w, j),
        !acceptance_passes(
            peer_header(w, 0),
            env.latest_payload_built->Some_0,
            peer_envelope_hash(w, 0),
        ),
        acceptance_passes(
            peer_header(w, 1),
            env.latest_payload_built->Some_0,
            peer_envelope_hash(w, 1),
        ),
    ensures
        ({
            let o = check_payload_accepted_spec(env, w);
            let h = peer_header(w, 1);
            let built = env.latest_payload_built->Some_0;
            &&& o.result is Ok
            &&& o.env.latest_block_info == Some(BlockInfo { hash: h.hash, number: h.number })
            &&& o.env.latest_fork_choice_state.head_block_hash == h.hash
            &&& o.env.latest_header_time == built.timestamp
        }),
{
    let id = env.payload_id_history[(env.latest_block_info->Some_0.number + 1) as u64];
    let built = env.latest_payload_built->Some_0;
    let h = peer_header(w, 1);
    assert(answers_checks(w, 0));
    assert(answers_checks(w, 1));
    let env1 = env.with_acceptance(built.timestamp, h.hash, h.number);
    assert(env1.latest_payload_built == env.latest_payload_built);
    lemma_check_scan_result(env1, w, id, 2, true);
    let o2 = check_scan(env1, w, id, 2, true);
    assert(o2.env == env1 && o2.result is Ok);
    let o1 = check_scan(env, w, id, 1, false);
    assert(o1.env == o2.env && o1.result == o2.result);
    let o0 = check_scan(env, w, id, 0, false);
    assert(o0.env == o1.env && o0.result == o1.result);
    assert(check_payload_accepted_spec(env, w) == o0);
}

/// The peer a recorded call addressed.
pub open spec fn call_peer(c: CallTag) -> usize {
    match c {
        CallTag::LatestBlock { peer } => peer,
        CallTag::LatestHeader { peer } => peer,
        CallTag::ForkchoiceUpdatedV2 { peer, .. } => peer,
        CallTag::ForkchoiceUpdatedV3 { peer, .. } => peer,
        CallTag::GetPayloadV2 { peer, .. } => peer,
        CallTag::GetPayloadV3 { peer, .. } => peer,
        CallTag::NewPayload { peer, .. } => peer,
    }
}

/// When the first peer answers a new-payload submission with "invalid" and
/// the second with "valid", the payload broadcast succeeds, records the
/// staged payload as executed, and stops after the second peer: its trace
/// holds exactly two calls per contacted peer and touches no peer past the
/// second, however many peers there are.
pub proof fn lemma_broadcast_stops_at_first_valid(env: EnvView, w: Seq<PeerView>)
    requires
        w.len() >= 2,
        (env.latest_payload_built is Some),
        (env.latest_payload_built->Some_0.parent_beacon_block_root is Some),
        (env.latest_block_info is Some),
        (w[0].latest_block matches Ok(Some(_))),
        (w[1].latest_block matches Ok(Some(_))),
        peer_block(w, 0).header.number == env.latest_block_info->Some_0.number,
        peer_block(w, 1).header.number == env.latest_block_info->Some_0.number,
        peer_block(w, 0).header.parent_beacon_block_root
            == env.latest_payload_built->Some_0.parent_beacon_block_root,
        peer_block(w, 1).header.parent_beacon_block_root
            == env.latest_payload_built->Some_0.parent_beacon_block_root,
        w[0].new_payload == Ok::<PayloadStatus, LinkError>(PayloadStatus::Invalid),
        w[1].new_payload == Ok::<PayloadStatus, LinkError>(PayloadStatus::Valid),
    ensures
        ({
            let o = broadcast_next_new_payload_spec(env, w);
            let root = env.latest_payload_built->Some_0.parent_beacon_block_root->Some_0;
            let n = env.latest_block_info->Some_0.number;
            &&& o.result is Ok
            &&& o.env == env.with_payload_executed(env.latest_payload_built->Some_0)
            &&& o.calls == seq![
                CallTag::LatestBlock { peer: 0 },
                CallTag::NewPayload { peer: 0, block_number: n, parent_beacon_block_root: root },
                CallTag::LatestBlock { peer: 1 },
                CallTag::NewPayload { peer: 1, block_number: n, parent_beacon_block_root: root },
            ]
            &&& forall|k: int| 0 <= k < o.calls.len() ==> call_peer(#[trigger] o.calls[k]) < 2
        }),
{
    let built = env.latest_payload_built->Some_0;
    let root = built.parent_beacon_block_root->Some_0;
    let n = env.latest_block_info->Some_0.number;
    let o1 = broadcast_scan(env, w, built, root, 1);
    let lb0 = CallTag::LatestBlock { peer: 0 };
    let np0 = CallTag::NewPayload { peer: 0, block_number: n, parent_beacon_block_root: root };
    let lb1 = CallTag::LatestBlock { peer: 1 };
    let np1 = CallTag::NewPayload { peer: 1, block_number: n, parent_beacon_block_root: root };
    assert(o1.result is Ok && o1.env == env.with_payload_executed(built) && o1.calls == seq![
        lb1,
        np1,
    ]);
    let o0 = broadcast_scan(env, w, built, root, 0);
    assert(o0.calls == seq![lb0, np0] + o1.calls);
    assert(o0.calls =~= seq![lb0, np0, lb1, np1]);
    assert(broadcast_next_new_payload_spec(env, w) == o0);
}

/// A reconstructed block whose number differs from the agreed one fails
/// the payload broadcast immediately: the step reports the mismatch after
/// its very first peer call, contacts no further peer, and leaves the
/// context unchanged — whatever any later peer would have answered.
pub proof fn lemma_broadcast_number_mismatch_is_fatal(env: EnvView, w: Seq<PeerView>)
    requires
        w.len() >= 1,
        (env.latest_payload_built is Some),
        (env.latest_payload_built->Some_0.parent_beacon_block_root is Some),
        (env.latest_block_info is Some),
        (w[0].latest_block matches Ok(Some(_))),
        peer_block(w, 0).header.number != env.latest_block_info->Some_0.number,
    ensures
        ({
            let o = broadcast_next_new_payload_spec(env, w);
            &&& o.result == Err::<(), Failure>(
                Failure::BlockNumberMismatch {
                    expected: env.latest_block_info->Some_0.number,
                    actual: peer_block(w, 0).header.number,
                },
            )
            &&& o.env == env
            &&& o.calls == seq![CallTag::LatestBlock { peer: 0 }]
        }),
{
    let built = env.latest_payload_built->Some_0;
    let root = built.parent_beacon_block_root->Some_0;
    let o0 = broadcast_scan(env, w, built, root, 0);
    assert(broadcast_next_new_payload_spec(env, w) == o0);
}

/// A sequence of three steps whose second step fails runs the first,
/// attempts the second, surfaces its failure verbatim, and never runs the
/// third: the trace holds exactly the first two steps' calls, and the
/// context is the one the failing step left.
pub proof fn lemma_sequence_stops_at_failure(
    a: ActionView,
    b: ActionView,
    c: ActionView,
    env: EnvView,
    w: Seq<PeerView>,
    draws: Seq<RandomDraw>,
)
    requires
        (action_outcome(a, env, w, draws).result is Ok),
        ({
            let oa = action_outcome(a, env, w, draws);
            action_outcome(b, oa.env, w, draws.skip(oa.draws as int)).result is Err
        }),
    ensures
        ({
            let oa = action_outcome(a, env, w, draws);
            let ob = action_outcome(b, oa.env, w, draws.skip(oa.draws as int));
            let s = seq_outcome(seq![a, b, c], env, w, draws);
            &&& s.result == ob.result
            &&& s.env == ob.env
            &&& s.calls == oa.calls + ob.calls
            &&& s.draws == oa.draws + ob.draws
        }),
{
    let s3 = seq![a, b, c];
    let oa = action_outcome(a, env, w, draws);
    let ob = action_outcome(b, oa.env, w, draws.skip(oa.draws as int));
    assert(s3[0] == a);
    assert(s3.drop_first() =~= seq![b, c]);
    assert(seq![b, c][0] == b);
    assert(seq_outcome(seq![b, c], oa.env, w, draws.skip(oa.draws as int)) == ob);
}

/// The block-production composite with `n > 0` rounds is one execution of
/// the producer-selection / attribute-generation pair — as an inner
/// sequence — followed by the composite with `n - 1` rounds on the context
/// the pair left, aborting if the pair fails: unrolled, `n` rounds of the
/// pair, in order.
pub proof fn lemma_produce_is_repeated_pairs(
    n: u64,
    env: EnvView,
    w: Seq<PeerView>,
    draws: Seq<RandomDraw>,
)
    requires
        n > 0,
    ensures
        ({
            let round = seq_outcome(
                seq![ActionView::Pick, ActionView::GenerateAttributes],
                env,
                w,
                draws,
            );
            let rest = produce_outcome((n - 1) as u64, round.env, w, draws.skip(round.draws as int));
            produce_outcome(n, env, w, draws) == (if round.result is Err {
                round
            } else {
                Outcome {
                    env: rest.env,
                    result: rest.result,
                    calls: round.calls + rest.calls,
                    draws: round.draws + rest.draws,
                }
            })
        }),
{
    let pair = seq![ActionView::Pick, ActionView::GenerateAttributes];
    let p = pick_next_block_producer_spec(env, w);
    assert(pair[0] == ActionView::Pick);
    assert(pair.drop_first() =~= seq![ActionView::GenerateAttributes]);
    assert(action_outcome(ActionView::Pick, env, w, draws) == p);
    if p.result is Err {
        assert(seq_outcome(pair, env, w, draws) == p);
        assert(produce_outcome(n, env, w, draws) == p);
    } else {
        assert(draws.skip(0) =~= draws);
        let g = generate_payload_attributes_spec(p.env, draws);
        assert(seq![ActionView::GenerateAttributes][0] == ActionView::GenerateAttributes);
        assert(seq![ActionView::GenerateAttributes].drop_first() =~= Seq::<ActionView>::empty());
        assert(action_outcome(ActionView::GenerateAttributes, p.env, w, draws) == g);
        let round = seq_outcome(pair, env, w, draws);
        if g.result is Err {
            assert(seq_outcome(seq![ActionView::GenerateAttributes], p.env, w, draws) == g);
            assert(round.env == g.env && round.result == g.result && round.draws == g.draws);
            assert(round.calls == p.calls + g.calls);
            assert(produce_outcome(n, env, w, draws) == (Outcome {
                env: g.env,
                result: g.result,
                calls: p.calls + g.calls,
                draws: g.draws,
            }));
        } else {
            let inner = seq_outcome(Seq::<ActionView>::empty(), g.env, w, draws.skip(g.draws as int));
            assert(inner.result is Ok && inner.env == g.env && inner.calls
                =~= Seq::<CallTag>::empty() && inner.draws == 0);
            let rest1 = seq_outcome(seq![ActionView::GenerateAttributes], p.env, w, draws);
            assert(rest1.env == g.env && rest1.result == g.result && rest1.draws == g.draws + 0);
            assert(rest1.calls == g.calls + inner.calls);
            assert(round.env == g.env && round.result == g.result && round.draws == 0 + rest1.draws);
            assert(round.calls == p.calls + rest1.calls);
            let rest = produce_outcome((n - 1) as u64, g.env, w, draws.skip(g.draws as int));
            assert(round.draws == g.draws);
            assert(draws.skip(round.draws as int) == draws.skip(g.draws as int));
            assert(produce_outcome(n, env, w, draws) == (Outcome {
                env: rest.env,
                result: rest.result,
                calls: p.calls + g.calls + rest.calls,
                draws: g.draws + rest.draws,
            }));
            assert(round.calls + rest.calls =~= p.calls + g.calls + rest.calls);
            assert(round.env == g.env);
        }
    }
}

} // verus!
