//! Composition: the uniform step type, ordered sequences of steps, and the
//! block-production composite.
//!
//! Heterogeneous concrete steps are stored and invoked uniformly as
//! [`ActionKind`] values; a [`Sequence`] executes its members in order and
//! aborts on the first failure, and is itself a step, so sequences compose.

use vstd::prelude::*;

use crate::accept::{check_payload_accepted_spec, CheckPayloadAccepted};
use crate::attributes::{generate_payload_attributes_spec, GeneratePayloadAttributes};
use crate::broadcast::{broadcast_next_new_payload_spec, BroadcastNextNewPayload};
use crate::env::{EnvView, Environment};
use crate::forkchoice::{broadcast_latest_forkchoice_spec, BroadcastLatestForkchoice};
use crate::link::{CallTag, EngineLink, PeerView};
use crate::mine::{assert_mine_block_spec, AssertMineBlock};
use crate::outcome::Outcome;
use crate::payload::{generate_next_payload_spec, GenerateNextPayload};
use crate::pick::{pick_next_block_producer_spec, PickNextBlockProducer};
use crate::random::{RandomDraw, RandomSource};
use crate::types::Failure;

verus! {

/// Produces blocks: repeats the producer-selection / attribute-generation
/// pair as an inner sequence, once per block. It performs no build,
/// broadcast or verification; callers compose those separately.
#[derive(Clone, Copy, Debug, Default)]
pub struct ProduceBlocks {
    /// How many blocks to produce.
    pub num_blocks: u64,
}

impl ProduceBlocks {
    /// Creates a new block-production composite.
    pub fn new(num_blocks: u64) -> (r: ProduceBlocks)
        ensures
            r.num_blocks == num_blocks,
    {
        ProduceBlocks { num_blocks }
    }
}

/// A sequence of steps, executed in order; the first failure aborts the
/// rest and is surfaced verbatim.
#[derive(Debug)]
pub struct Sequence {
    /// The steps, in execution order.
    pub actions: Vec<ActionKind>,
}

impl Sequence {
    /// Creates a sequence over the given steps.
    pub fn new(actions: Vec<ActionKind>) -> (r: Sequence)
        ensures
            r.actions == actions,
    {
        Sequence { actions }
    }
}

/// One step, stored uniformly: any of the concrete protocol steps, the
/// block-production composite, or a nested sequence.
#[derive(Debug)]
pub enum ActionKind {
    /// Producer selection.
    Pick(PickNextBlockProducer),
    /// Attribute generation.
    GenerateAttributes(GeneratePayloadAttributes),
    /// Payload generation.
    GeneratePayload(GenerateNextPayload),
    /// Fork-choice broadcast.
    BroadcastForkchoice(BroadcastLatestForkchoice),
    /// Acceptance verification.
    CheckAccepted(CheckPayloadAccepted),
    /// Payload broadcast.
    BroadcastPayload(BroadcastNextNewPayload),
    /// The block-production composite.
    Produce(ProduceBlocks),
    /// Single-node mining.
    Mine(AssertMineBlock),
    /// A nested sequence of steps.
    Nested(Sequence),
}

/// A container that erases which concrete step it holds, so heterogeneous
/// steps can be stored and scheduled uniformly.
#[derive(Debug)]
pub struct ActionBox {
    /// The step held.
    pub action: ActionKind,
}

/// What a step is, mathematically: enough of the step's data to determine
/// its outcome.
pub enum ActionView {
    /// Producer selection.
    Pick,
    /// Attribute generation.
    GenerateAttributes,
    /// Payload generation.
    GeneratePayload,
    /// Fork-choice broadcast.
    BroadcastForkchoice,
    /// Acceptance verification.
    CheckAccepted,
    /// Payload broadcast.
    BroadcastPayload,
    /// The block-production composite.
    Produce {
        /// How many blocks to produce.
        num_blocks: u64,
    },
    /// Single-node mining.
    Mine {
        /// The index of the peer to mine on.
        node_idx: usize,
    },
    /// A nested sequence of steps.
    Nested(Seq<ActionView>),
}

/// The mathematical value of a step.
pub open spec fn action_view(a: ActionKind) -> ActionView
    decreases a,
{
    match a {
        ActionKind::Pick(_) => ActionView::Pick,
        ActionKind::GenerateAttributes(_) => ActionView::GenerateAttributes,
        ActionKind::GeneratePayload(_) => ActionView::GeneratePayload,
        ActionKind::BroadcastForkchoice(_) => ActionView::BroadcastForkchoice,
        ActionKind::CheckAccepted(_) => ActionView::CheckAccepted,
        ActionKind::BroadcastPayload(_) => ActionView::BroadcastPayload,
        ActionKind::Produce(p) => ActionView::Produce { num_blocks: p.num_blocks },
        ActionKind::Mine(m) => ActionView::Mine { node_idx: m.node_idx },
        ActionKind::Nested(s) => ActionView::Nested(actions_view(s.actions@)),
    }
}

/// The mathematical value of a list of steps.
pub open spec fn actions_view(s: Seq<ActionKind>) -> Seq<ActionView>
    decreases s,
{
    if s.len() == 0 {
        Seq::empty()
    } else {
        actions_view(s.drop_last()).push(action_view(s.last()))
    }
}

/// The value of a list of steps is element-wise.
pub proof fn lemma_actions_view(s: Seq<ActionKind>)
    ensures
        actions_view(s).len() == s.len(),
        forall|i: int| 0 <= i < s.len() ==> actions_view(s)[i] == action_view(s[i]),
    decreases s.len(),
{
    if s.len() > 0 {
        lemma_actions_view(s.drop_last());
    }
}

/// What the block-production composite denotes: `n` rounds of producer
/// selection followed by attribute generation, aborting on the first
/// failure, each round consuming the attribute generation's draws.
pub open spec fn produce_outcome(
    n: u64,
    env: EnvView,
    w: Seq<PeerView>,
    draws: Seq<RandomDraw>,
) -> Outcome
    decreases n,
{
    if n == 0 {
        Outcome { env, result: Ok(()), calls: Seq::empty(), draws: 0 }
    } else {
        let p = pick_next_block_producer_spec(env, w);
        if p.result is Err {
            p
        } else {
            let g = generate_payload_attributes_spec(p.env, draws);
            if g.result is Err {
                Outcome { env: g.env, result: g.result, calls: p.calls + g.calls, draws: g.draws }
            } else {
                let rest = produce_outcome((n - 1) as u64, g.env, w, draws.skip(g.draws as int));
                Outcome {
                    env: rest.env,
                    result: rest.result,
                    calls: p.calls + g.calls + rest.calls,
                    draws: g.draws + rest.draws,
                }
            }
        }
    }
}

/// What one step denotes, as a function of the context, the peers'
/// answers, and the draws it consumes.
pub open spec fn action_outcome(
    a: ActionView,
    env: EnvView,
    w: Seq<PeerView>,
    draws: Seq<RandomDraw>,
) -> Outcome
    decreases a,
{
    match a {
        ActionView::Pick => pick_next_block_producer_spec(env, w),
        ActionView::GenerateAttributes => generate_payload_attributes_spec(env, draws),
        ActionView::GeneratePayload => generate_next_payload_spec(env, w),
        ActionView::BroadcastForkchoice => broadcast_latest_forkchoice_spec(env, w),
        ActionView::CheckAccepted => check_payload_accepted_spec(env, w),
        ActionView::BroadcastPayload => broadcast_next_new_payload_spec(env, w),
        ActionView::Produce { num_blocks } => produce_outcome(num_blocks, env, w, draws),
        ActionView::Mine { node_idx } => assert_mine_block_spec(node_idx, env, w),
        ActionView::Nested(s) => seq_outcome(s, env, w, draws),
    }
}

/// What a sequence denotes: its members in order, each starting from the
/// context the previous one left and consuming the draws after those the
/// previous ones consumed; the first failure is surfaced verbatim and ends
/// the sequence.
pub open spec fn seq_outcome(
    s: Seq<ActionView>,
    env: EnvView,
    w: Seq<PeerView>,
    draws: Seq<RandomDraw>,
) -> Outcome
    decreases s,
{
    if s.len() == 0 {
        Outcome { env, result: Ok(()), calls: Seq::empty(), draws: 0 }
    } else {
        let first = action_outcome(s[0], env, w, draws);
        if first.result is Err {
            first
        } else {
            let rest = seq_outcome(s.drop_first(), first.env, w, draws.skip(first.draws as int));
            Outcome {
                env: rest.env,
                result: rest.result,
                calls: first.calls + rest.calls,
                draws: first.draws + rest.draws,
            }
        }
    }
}

/// The uniform contract of a step execution: the randomness record grew by
/// exactly the draws the step consumed, and for every continuation of those
/// draws, the outcome function over them reproduces the context left
/// behind, the result, and the calls made.
pub open spec fn step_matches(
    a: ActionView,
    env0: EnvView,
    env1: EnvView,
    w: Seq<PeerView>,
    calls0: Seq<CallTag>,
    calls1: Seq<CallTag>,
    taken0: Seq<RandomDraw>,
    taken1: Seq<RandomDraw>,
    r: Result<(), Failure>,
) -> bool {
    let consumed = taken1.skip(taken0.len() as int);
    &&& taken1.len() >= taken0.len()
    &&& taken1.take(taken0.len() as int) == taken0
    &&& forall|ext: Seq<RandomDraw>|
        #![trigger action_outcome(a, env0, w, taken1.skip(taken0.len() as int) + ext)]
        {
            let o = action_outcome(a, env0, w, consumed + ext);
            &&& env1 == o.env
            &&& r == o.result
            &&& calls1 == calls0 + o.calls
            &&& o.draws == consumed.len()
        }
}

/// Attribute generation reads only the draws it consumes: extending the
/// draw sequence changes nothing.
pub proof fn lemma_generate_attributes_extend(env: EnvView, d: Seq<RandomDraw>, ext: Seq<RandomDraw>)
    requires
        generate_payload_attributes_spec(env, d).draws == d.len(),
    ensures
        generate_payload_attributes_spec(env, d + ext) == generate_payload_attributes_spec(env, d),
{
    match env.latest_block_info {
        None => {},
        Some(info) => {
            if env.latest_header_time + env.block_timestamp_increment <= u64::MAX && info.number + 1
                <= u64::MAX {
                assert(d.len() == 1);
                assert((d + ext)[0] == d[0]);
            }
        },
    }
}

impl ProduceBlocks {
    /// Runs the composite: `num_blocks` rounds of producer selection
    /// followed by attribute generation, aborting on the first failure.
    #[verifier::loop_isolation(false)]
    pub fn execute<L: EngineLink, R: RandomSource>(
        &self,
        env: &mut Environment,
        link: &mut L,
        rng: &mut R,
    ) -> (r: Result<(), Failure>)
        ensures
            final(link).world() == old(link).world(),
            step_matches(
                ActionView::Produce { num_blocks: self.num_blocks },
                old(env)@,
                final(env)@,
                old(link).world(),
                old(link).calls(),
                final(link).calls(),
                old(rng).taken(),
                final(rng).taken(),
                r,
            ),
    {
        let ghost env0 = old(env)@;
        let ghost w = old(link).world();
        let ghost calls0 = old(link).calls();
        let ghost taken0 = old(rng).taken();
        let pick = PickNextBlockProducer::new();
        let gen = GeneratePayloadAttributes::new();
        let n = self.num_blocks;
        proof {
            assert(taken0.take(taken0.len() as int) =~= taken0);
            assert(calls0.take(calls0.len() as int) =~= calls0);
        }
        let mut k: u64 = 0;
        while k < n
            invariant
                0 <= k <= n,
                link.world() == w,
                rng.taken().len() >= taken0.len(),
                rng.taken().take(taken0.len() as int) == taken0,
                link.calls().len() >= calls0.len(),
                link.calls().take(calls0.len() as int) == calls0,
                forall|ext: Seq<RandomDraw>|
                    #![trigger produce_outcome(n, env0, w, rng.taken().skip(taken0.len() as int) + ext)]
                    {
                        let made = rng.taken().skip(taken0.len() as int);
                        let o = produce_outcome(n, env0, w, made + ext);
                        let rest = produce_outcome((n - k) as u64, env@, w, ext);
                        &&& o.env == rest.env
                        &&& o.result == rest.result
                        &&& o.calls == link.calls().skip(calls0.len() as int) + rest.calls
                        &&& o.draws == made.len() + rest.draws
                    },
            decreases n - k,
        {
            let ghost env_a = env@;
            let ghost made_a = rng.taken().skip(taken0.len() as int);
            let ghost calls_a = link.calls().skip(calls0.len() as int);
            let r1 = pick.execute(env, link);
            proof {
                assert(link.calls().take(calls0.len() as int) =~= calls0);
                assert(link.calls().skip(calls0.len() as int) =~= calls_a
                    + pick_next_block_producer_spec(env_a, w).calls);
            }
            if let Err(e) = r1 {
                proof {
                    let p = pick_next_block_producer_spec(env_a, w);
                    assert forall|ext: Seq<RandomDraw>|
                        #![trigger produce_outcome(n, env0, w, rng.taken().skip(taken0.len() as int) + ext)]
                        {
                            let made = rng.taken().skip(taken0.len() as int);
                            let o = produce_outcome(n, env0, w, made + ext);
                            &&& env@ == o.env
                            &&& Err::<(), Failure>(e) == o.result
                            &&& link.calls() == calls0 + o.calls
                            &&& o.draws == made.len()
                        } by {
                        let made = rng.taken().skip(taken0.len() as int);
                        let o = produce_outcome(n, env0, w, made + ext);
                        let rest = produce_outcome((n - k) as u64, env_a, w, ext);
                        assert(o.env == rest.env && o.result == rest.result && o.calls == calls_a
                            + rest.calls && o.draws == made.len() + rest.draws);
                        assert(rest == p);
                        assert(link.calls() =~= calls0 + (calls_a + p.calls));
                    }
                }
                return Err(e);
            }
            let ghost env_b = env@;
            let ghost taken_b = rng.taken();
            let r2 = gen.execute(env, rng);
            let ghost d2 = rng.taken().skip(taken_b.len() as int);
            proof {
                assert(rng.taken().take(taken0.len() as int) =~= taken0);
                assert(rng.taken().skip(taken0.len() as int) =~= made_a + d2);
            }
            if let Err(e) = r2 {
                proof {
                    let p = pick_next_block_producer_spec(env_a, w);
                    let g = generate_payload_attributes_spec(env_b, d2);
                    assert(d2 =~= Seq::<RandomDraw>::empty());
                    assert forall|ext: Seq<RandomDraw>|
                        #![trigger produce_outcome(n, env0, w, rng.taken().skip(taken0.len() as int) + ext)]
                        {
                            let made = rng.taken().skip(taken0.len() as int);
                            let o = produce_outcome(n, env0, w, made + ext);
                            &&& env@ == o.env
                            &&& Err::<(), Failure>(e) == o.result
                            &&& link.calls() == calls0 + o.calls
                            &&& o.draws == made.len()
                        } by {
                        let made = rng.taken().skip(taken0.len() as int);
                        assert(made =~= made_a);
                        let o = produce_outcome(n, env0, w, made + ext);
                        let rest = produce_outcome((n - k) as u64, env_a, w, ext);
                        assert(o.env == rest.env && o.result == rest.result && o.calls == calls_a
                            + rest.calls && o.draws == made.len() + rest.draws);
                        lemma_generate_attributes_extend(env_b, d2, ext);
                        assert(d2 + ext =~= ext);
                        assert(generate_payload_attributes_spec(env_b, ext)
                            == generate_payload_attributes_spec(env_b, d2));
                        assert(rest.result == g.result && rest.env == g.env);
                        assert(rest.calls =~= p.calls + g.calls);
                        assert(link.calls() =~= calls0 + (calls_a + (p.calls + g.calls)));
                        assert(o.draws == made.len() + g.draws);
                        assert(g.draws == 0);
                    }
                }
                return Err(e);
            }
            proof {
                let p = pick_next_block_producer_spec(env_a, w);
                let g = generate_payload_attributes_spec(env_b, d2);
                assert(g.draws == d2.len());
                assert forall|ext: Seq<RandomDraw>|
                    #![trigger produce_outcome(n, env0, w, rng.taken().skip(taken0.len() as int) + ext)]
                    {
                        let made = rng.taken().skip(taken0.len() as int);
                        let o = produce_outcome(n, env0, w, made + ext);
                        let rest = produce_outcome((n - (k + 1)) as u64, env@, w, ext);
                        &&& o.env == rest.env
                        &&& o.result == rest.result
                        &&& o.calls == link.calls().skip(calls0.len() as int) + rest.calls
                        &&& o.draws == made.len() + rest.draws
                    } by {
                    let made = rng.taken().skip(taken0.len() as int);
                    assert(made =~= made_a + d2);
                    let o = produce_outcome(n, env0, w, made + ext);
                    assert(made + ext =~= made_a + (d2 + ext));
                    let rest0 = produce_outcome((n - k) as u64, env_a, w, d2 + ext);
                    assert(o.env == rest0.env && o.result == rest0.result && o.calls == calls_a
                        + rest0.calls && o.draws == made_a.len() + rest0.draws);
                    lemma_generate_attributes_extend(env_b, d2, ext);
                    assert(generate_payload_attributes_spec(env_b, d2 + ext) == g);
                    assert((d2 + ext).skip(g.draws as int) =~= ext);
                    let rest = produce_outcome((n - (k + 1)) as u64, env@, w, ext);
                    assert(rest0.env == rest.env && rest0.result == rest.result);
                    assert(rest0.calls =~= p.calls + g.calls + rest.calls);
                    assert(rest0.draws == g.draws + rest.draws);
                    assert(link.calls().skip(calls0.len() as int) =~= calls_a + (p.calls
                        + g.calls));
                    assert(o.calls =~= link.calls().skip(calls0.len() as int) + rest.calls);
                }
            }
            k = k + 1;
        }
        proof {
            assert forall|ext: Seq<RandomDraw>|
                #![trigger action_outcome(ActionView::Produce { num_blocks: n }, env0, w, rng.taken().skip(taken0.len() as int) + ext)]
                {
                    let consumed = rng.taken().skip(taken0.len() as int);
                    let o = action_outcome(
                        ActionView::Produce { num_blocks: n },
                        env0,
                        w,
                        consumed + ext,
                    );
                    &&& env@ == o.env
                    &&& Ok::<(), Failure>(()) == o.result
                    &&& link.calls() == calls0 + o.calls
                    &&& o.draws == consumed.len()
                } by {
                let consumed = rng.taken().skip(taken0.len() as int);
                let o = produce_outcome(n, env0, w, consumed + ext);
                let rest = produce_outcome(0, env@, w, ext);
                assert(o.env == rest.env && o.result == rest.result && o.calls == link.calls().skip(
                    calls0.len() as int,
                ) + rest.calls && o.draws == consumed.len() + rest.draws);
                assert(link.calls().skip(calls0.len() as int) + rest.calls =~= link.calls().skip(
                    calls0.len() as int,
                ));
                assert(link.calls() =~= calls0 + link.calls().skip(calls0.len() as int));
            }
        }
        Ok(())
    }
}

/// A step whose outcome never reads the draws satisfies the uniform step
/// contract whenever its direct contract holds and it drew nothing.
proof fn lemma_drawless_step(
    a: ActionView,
    env0: EnvView,
    env1: EnvView,
    w: Seq<PeerView>,
    calls0: Seq<CallTag>,
    calls1: Seq<CallTag>,
    taken: Seq<RandomDraw>,
    r: Result<(), Failure>,
    o: Outcome,
)
    requires
        forall|d: Seq<RandomDraw>| #[trigger] action_outcome(a, env0, w, d) == o,
        env1 == o.env,
        r == o.result,
        calls1 == calls0 + o.calls,
        o.draws == 0,
    ensures
        step_matches(a, env0, env1, w, calls0, calls1, taken, taken, r),
{
    assert(taken.skip(taken.len() as int) =~= Seq::<RandomDraw>::empty());
    assert(taken.take(taken.len() as int) =~= taken);
}

impl ActionKind {
    /// Executes the step it holds, uniformly.
    pub fn execute<L: EngineLink, R: RandomSource>(
        &self,
        env: &mut Environment,
        link: &mut L,
        rng: &mut R,
    ) -> (r: Result<(), Failure>)
        ensures
            final(link).world() == old(link).world(),
            step_matches(
                action_view(*self),
                old(env)@,
                final(env)@,
                old(link).world(),
                old(link).calls(),
                final(link).calls(),
                old(rng).taken(),
                final(rng).taken(),
                r,
            ),
        decreases *self,
    {
        let ghost env0 = old(env)@;
        let ghost w = old(link).world();
        let ghost calls0 = old(link).calls();
        let ghost taken0 = old(rng).taken();
        match self {
            ActionKind::Pick(a) => {
                let r = a.execute(env, link);
                proof {
                    lemma_drawless_step(
                        action_view(*self),
                        env0,
                        env@,
                        w,
                        calls0,
                        link.calls(),
                        rng.taken(),
                        r,
                        pick_next_block_producer_spec(env0, w),
                    );
                }
                r
            },
            ActionKind::GeneratePayload(a) => {
                let r = a.execute(env, link);
                proof {
                    lemma_drawless_step(
                        action_view(*self),
                        env0,
                        env@,
                        w,
                        calls0,
                        link.calls(),
                        rng.taken(),
                        r,
                        generate_next_payload_spec(env0, w),
                    );
                }
                r
            },
            ActionKind::BroadcastForkchoice(a) => {
                let r = a.execute(env, link);
                proof {
                    lemma_drawless_step(
                        action_view(*self),
                        env0,
                        env@,
                        w,
                        calls0,
                        link.calls(),
                        rng.taken(),
                        r,
                        broadcast_latest_forkchoice_spec(env0, w),
                    );
                }
                r
            },
            ActionKind::CheckAccepted(a) => {
                let r = a.execute(env, link);
                proof {
                    lemma_drawless_step(
                        action_view(*self),
                        env0,
                        env@,
                        w,
                        calls0,
                        link.calls(),
                        rng.taken(),
                        r,
                        check_payload_accepted_spec(env0, w),
                    );
                }
                r
            },
            ActionKind::BroadcastPayload(a) => {
                let r = a.execute(env, link);
                proof {
                    lemma_drawless_step(
                        action_view(*self),
                        env0,
                        env@,
                        w,
                        calls0,
                        link.calls(),
                        rng.taken(),
                        r,
                        broadcast_next_new_payload_spec(env0, w),
                    );
                }
                r
            },
            ActionKind::Mine(a) => {
                let r = a.execute(env, link);
                proof {
                    lemma_drawless_step(
                        action_view(*self),
                        env0,
                        env@,
                        w,
                        calls0,
                        link.calls(),
                        rng.taken(),
                        r,
                        assert_mine_block_spec(a.node_idx, env0, w),
                    );
                }
                r
            },
            ActionKind::GenerateAttributes(a) => {
                let r = a.execute(env, rng);
                proof {
                    let consumed = rng.taken().skip(taken0.len() as int);
                    let o = generate_payload_attributes_spec(env0, consumed);
                    assert(calls0 + o.calls =~= calls0);
                    assert forall|ext: Seq<RandomDraw>|
                        #![trigger action_outcome(action_view(*self), env0, w, rng.taken().skip(taken0.len() as int) + ext)]
                        {
                            let oe = action_outcome(action_view(*self), env0, w, consumed + ext);
                            &&& env@ == oe.env
                            &&& r == oe.result
                            &&& link.calls() == calls0 + oe.calls
                            &&& oe.draws == consumed.len()
                        } by {
                        lemma_generate_attributes_extend(env0, consumed, ext);
                    }
                }
                r
            },
            ActionKind::Produce(a) => {
                let r = a.execute(env, link, rng);
                r
            },
            ActionKind::Nested(s) => {
                proof {
                    assert(decreases_to!(*self => *s));
                }
                let r = s.execute(env, link, rng);
                r
            },
        }
    }
}

impl Sequence {
    /// Executes the members in order, starting each from the context the
    /// previous one left, and aborts on the first failure, surfacing it
    /// verbatim; no later member runs after a failure.
    #[verifier::loop_isolation(false)]
    #[verifier::rlimit(100)]
    pub fn execute<L: EngineLink, R: RandomSource>(
        &self,
        env: &mut Environment,
        link: &mut L,
        rng: &mut R,
    ) -> (r: Result<(), Failure>)
        ensures
            final(link).world() == old(link).world(),
            step_matches(
                ActionView::Nested(actions_view(self.actions@)),
                old(env)@,
                final(env)@,
                old(link).world(),
                old(link).calls(),
                final(link).calls(),
                old(rng).taken(),
                final(rng).taken(),
                r,
            ),
        decreases *self,
    {
        let ghost sv = actions_view(self.actions@);
        let ghost env0 = old(env)@;
        let ghost w = old(link).world();
        let ghost calls0 = old(link).calls();
        let ghost taken0 = old(rng).taken();
        proof {
            lemma_actions_view(self.actions@);
            assert(taken0.take(taken0.len() as int) =~= taken0);
            assert(calls0.take(calls0.len() as int) =~= calls0);
            assert forall|ext: Seq<RandomDraw>|
                #![trigger seq_outcome(sv, env0, w, taken0.skip(taken0.len() as int) + ext)]
                {
                    let made = taken0.skip(taken0.len() as int);
                    let o = seq_outcome(sv, env0, w, made + ext);
                    let rest = seq_outcome(sv.skip(0), env0, w, ext);
                    &&& o.env == rest.env
                    &&& o.result == rest.result
                    &&& o.calls == calls0.skip(calls0.len() as int) + rest.calls
                    &&& o.draws == made.len() + rest.draws
                } by {
                let made = taken0.skip(taken0.len() as int);
                assert(made =~= Seq::<RandomDraw>::empty());
                assert(made + ext =~= ext);
                assert(sv.skip(0) =~= sv);
                assert(calls0.skip(calls0.len() as int) =~= Seq::<CallTag>::empty());
                assert(calls0.skip(calls0.len() as int) + seq_outcome(sv, env0, w, ext).calls
                    =~= seq_outcome(sv, env0, w, ext).calls);
            }
        }
        let n = self.actions.len();
        let mut i: usize = 0;
        while i < n
            invariant
                0 <= i <= n,
                link.world() == w,
                rng.taken().len() >= taken0.len(),
                rng.taken().take(taken0.len() as int) == taken0,
                link.calls().len() >= calls0.len(),
                link.calls().take(calls0.len() as int) == calls0,
                forall|ext: Seq<RandomDraw>|
                    #![trigger seq_outcome(sv, env0, w, rng.taken().skip(taken0.len() as int) + ext)]
                    {
                        let made = rng.taken().skip(taken0.len() as int);
                        let o = seq_outcome(sv, env0, w, made + ext);
                        let rest = seq_outcome(sv.skip(i as int), env@, w, ext);
                        &&& o.env == rest.env
                        &&& o.result == rest.result
                        &&& o.calls == link.calls().skip(calls0.len() as int) + rest.calls
                        &&& o.draws == made.len() + rest.draws
                    },
            decreases n - i,
        {
            let ghost env_a = env@;
            let ghost made_a = rng.taken().skip(taken0.len() as int);
            let ghost calls_a = link.calls().skip(calls0.len() as int);
            let ghost taken_a = rng.taken();
            let ghost lc_a = link.calls();
            proof {
                assert(decreases_to!(*self => self.actions));
                assert(decreases_to!(self.actions => self.actions@[i as int]));
            }
            let r1 = (&self.actions[i]).execute(env, link, rng);
            let ghost a_i = action_view(self.actions@[i as int]);
            let ghost d1 = rng.taken().skip(taken_a.len() as int);
            proof {
                assert(sv[i as int] == a_i);
                assert(rng.taken().take(taken_a.len() as int) == taken_a);
                assert(taken_a.take(taken0.len() as int) == taken0);
                assert(taken0.len() <= taken_a.len() <= rng.taken().len());
                assert(rng.taken().take(taken0.len() as int) =~= taken0);
                let first0 = action_outcome(a_i, env_a, w, d1 + Seq::<RandomDraw>::empty());
                assert(link.calls() == lc_a + first0.calls);
                assert(link.calls().take(lc_a.len() as int) =~= lc_a);
                assert(lc_a.take(calls0.len() as int) == calls0);
                assert(calls0.len() <= lc_a.len() <= link.calls().len());
                assert(link.calls().take(calls0.len() as int) =~= calls0);
                assert(rng.taken().skip(taken0.len() as int) =~= made_a + d1);
            }
            if let Err(e) = r1 {
                proof {
                    assert forall|ext: Seq<RandomDraw>|
                        #![trigger seq_outcome(sv, env0, w, rng.taken().skip(taken0.len() as int) + ext)]
                        {
                            let made = rng.taken().skip(taken0.len() as int);
                            let o = seq_outcome(sv, env0, w, made + ext);
                            &&& env@ == o.env
                            &&& Err::<(), Failure>(e) == o.result
                            &&& link.calls() == calls0 + o.calls
                            &&& o.draws == made.len()
                        } by {
                        let made = rng.taken().skip(taken0.len() as int);
                        assert(made =~= made_a + d1);
                        assert(made + ext =~= made_a + (d1 + ext));
                        let o = seq_outcome(sv, env0, w, made_a + (d1 + ext));
                        let rest = seq_outcome(sv.skip(i as int), env_a, w, d1 + ext);
                        assert(o.env == rest.env && o.result == rest.result && o.calls == calls_a
                            + rest.calls && o.draws == made_a.len() + rest.draws);
                        assert(sv.skip(i as int)[0] == sv[i as int]);
                        let first = action_outcome(a_i, env_a, w, d1 + ext);
                        assert(env@ == first.env && Err::<(), Failure>(e) == first.result
                            && link.calls() == lc_a + first.calls && first.draws == d1.len());
                        assert(rest == first);
                        assert(link.calls() =~= calls0 + (calls_a + first.calls));
                    }
                    assert forall|ext: Seq<RandomDraw>|
                        #![trigger action_outcome(ActionView::Nested(sv), env0, w, rng.taken().skip(taken0.len() as int) + ext)]
                        {
                            let consumed = rng.taken().skip(taken0.len() as int);
                            let o = action_outcome(ActionView::Nested(sv), env0, w, consumed + ext);
                            &&& env@ == o.env
                            &&& Err::<(), Failure>(e) == o.result
                            &&& link.calls() == calls0 + o.calls
                            &&& o.draws == consumed.len()
                        } by {
                        let consumed = rng.taken().skip(taken0.len() as int);
                        assert(action_outcome(ActionView::Nested(sv), env0, w, consumed + ext)
                            == seq_outcome(sv, env0, w, consumed + ext));
                    }
                }
                return Err(e);
            }
            proof {
                assert forall|ext: Seq<RandomDraw>|
                    #![trigger seq_outcome(sv, env0, w, rng.taken().skip(taken0.len() as int) + ext)]
                    {
                        let made = rng.taken().skip(taken0.len() as int);
                        let o = seq_outcome(sv, env0, w, made + ext);
                        let rest = seq_outcome(sv.skip(i + 1), env@, w, ext);
                        &&& o.env == rest.env
                        &&& o.result == rest.result
                        &&& o.calls == link.calls().skip(calls0.len() as int) + rest.calls
                        &&& o.draws == made.len() + rest.draws
                    } by {
                    let made = rng.taken().skip(taken0.len() as int);
                    assert(made =~= made_a + d1);
                    assert(made + ext =~= made_a + (d1 + ext));
                    let o = seq_outcome(sv, env0, w, made_a + (d1 + ext));
                    let rest0 = seq_outcome(sv.skip(i as int), env_a, w, d1 + ext);
                    assert(o.env == rest0.env && o.result == rest0.result && o.calls == calls_a
                        + rest0.calls && o.draws == made_a.len() + rest0.draws);
                    assert(sv.skip(i as int)[0] == sv[i as int]);
                    let first = action_outcome(a_i, env_a, w, d1 + ext);
                    assert(env@ == first.env && r1 == first.result && link.calls() == lc_a
                        + first.calls && first.draws == d1.len());
                    assert(sv.skip(i as int).drop_first() =~= sv.skip(i + 1));
                    assert((d1 + ext).skip(d1.len() as int) =~= ext);
                    let rest = seq_outcome(sv.skip(i + 1), env@, w, ext);
                    assert(rest0.env == rest.env && rest0.result == rest.result);
                    assert(rest0.calls == first.calls + rest.calls);
                    assert(rest0.draws == first.draws + rest.draws);
                    assert(link.calls().skip(calls0.len() as int) =~= calls_a + first.calls);
                    assert(o.calls =~= link.calls().skip(calls0.len() as int) + rest.calls);
                }
            }
            i = i + 1;
        }
        proof {
            assert forall|ext: Seq<RandomDraw>|
                #![trigger action_outcome(ActionView::Nested(sv), env0, w, rng.taken().skip(taken0.len() as int) + ext)]
                {
                    let consumed = rng.taken().skip(taken0.len() as int);
                    let o = action_outcome(ActionView::Nested(sv), env0, w, consumed + ext);
                    &&& env@ == o.env
                    &&& Ok::<(), Failure>(()) == o.result
                    &&& link.calls() == calls0 + o.calls
                    &&& o.draws == consumed.len()
                } by {
                let consumed = rng.taken().skip(taken0.len() as int);
                let o = seq_outcome(sv, env0, w, consumed + ext);
                let rest = seq_outcome(sv.skip(n as int), env@, w, ext);
                assert(o.env == rest.env && o.result == rest.result && o.calls == link.calls().skip(
                    calls0.len() as int,
                ) + rest.calls && o.draws == consumed.len() + rest.draws);
                assert(sv.skip(n as int) =~= Seq::<ActionView>::empty());
                assert(rest.calls =~= Seq::<CallTag>::empty());
                assert(link.calls().skip(calls0.len() as int) + rest.calls =~= link.calls().skip(
                    calls0.len() as int,
                ));
                assert(link.calls() =~= calls0 + link.calls().skip(calls0.len() as int));
            }
        }
        Ok(())
    }
}

impl ActionBox {
    /// Wraps a step for uniform storage.
    pub fn new(action: ActionKind) -> (r: ActionBox)
        ensures
            r.action == action,
    {
        ActionBox { action }
    }

    /// Executes the wrapped step.
    pub fn execute<L: EngineLink, R: RandomSource>(
        self,
        env: &mut Environment,
        link: &mut L,
        rng: &mut R,
    ) -> (r: Result<(), Failure>)
        ensures
            final(link).world() == old(link).world(),
            step_matches(
                action_view(self.action),
                old(env)@,
                final(env)@,
                old(link).world(),
                old(link).calls(),
                final(link).calls(),
                old(rng).taken(),
                final(rng).taken(),
                r,
            ),
    {
        self.action.execute(env, link, rng)
    }
}

/// The unit-of-work abstraction: anything that consumes the run context by
/// exclusive reference, together with the peer surface and a randomness
/// source, and yields success or a descriptive failure, with the uniform
/// step contract over its denotation.
pub trait Action: Sized {
    /// What the step is, mathematically.
    spec fn denote(&self) -> ActionView;

    /// Executes the step.
    fn run<L: EngineLink, R: RandomSource>(
        &self,
        env: &mut Environment,
        link: &mut L,
        rng: &mut R,
    ) -> (r: Result<(), Failure>)
        ensures
            final(link).world() == old(link).world(),
            step_matches(
                self.denote(),
                old(env)@,
                final(env)@,
                old(link).world(),
                old(link).calls(),
                final(link).calls(),
                old(rng).taken(),
                final(rng).taken(),
                r,
            ),
    ;
}

impl Action for ActionKind {
    open spec fn denote(&self) -> ActionView {
        action_view(*self)
    }

    fn run<L: EngineLink, R: RandomSource>(
        &self,
        env: &mut Environment,
        link: &mut L,
        rng: &mut R,
    ) -> (r: Result<(), Failure>)
        ensures
            final(link).world() == old(link).world(),
            step_matches(
                self.denote(),
                old(env)@,
                final(env)@,
                old(link).world(),
                old(link).calls(),
                final(link).calls(),
                old(rng).taken(),
                final(rng).taken(),
                r,
            ),
    {
        self.execute(env, link, rng)
    }
}

impl Action for Sequence {
    open spec fn denote(&self) -> ActionView {
        ActionView::Nested(actions_view(self.actions@))
    }

    fn run<L: EngineLink, R: RandomSource>(
        &self,
        env: &mut Environment,
        link: &mut L,
        rng: &mut R,
    ) -> (r: Result<(), Failure>)
        ensures
            final(link).world() == old(link).world(),
            step_matches(
                self.denote(),
                old(env)@,
                final(env)@,
                old(link).world(),
                old(link).calls(),
                final(link).calls(),
                old(rng).taken(),
                final(rng).taken(),
                r,
            ),
    {
        self.execute(env, link, rng)
    }
}

impl Action for ProduceBlocks {
    open spec fn denote(&self) -> ActionView {
        ActionView::Produce { num_blocks: self.num_blocks }
    }

    fn run<L: EngineLink, R: RandomSource>(
        &self,
        env: &mut Environment,
        link: &mut L,
        rng: &mut R,
    ) -> (r: Result<(), Failure>)
        ensures
            final(link).world() == old(link).world(),
            step_matches(
                self.denote(),
                old(env)@,
                final(env)@,
                old(link).world(),
                old(link).calls(),
                final(link).calls(),
                old(rng).taken(),
                final(rng).taken(),
                r,
            ),
    {
        self.execute(env, link, rng)
    }
}

impl Action for PickNextBlockProducer {
    open spec fn denote(&self) -> ActionView {
        ActionView::Pick
    }

    fn run<L: EngineLink, R: RandomSource>(
        &self,
        env: &mut Environment,
        link: &mut L,
        rng: &mut R,
    ) -> (r: Result<(), Failure>)
        ensures
            final(link).world() == old(link).world(),
            step_matches(
                self.denote(),
                old(env)@,
                final(env)@,
                old(link).world(),
                old(link).calls(),
                final(link).calls(),
                old(rng).taken(),
                final(rng).taken(),
                r,
            ),
    {
        ActionKind::Pick(*self).execute(env, link, rng)
    }
}

impl Action for GeneratePayloadAttributes {
    open spec fn denote(&self) -> ActionView {
        ActionView::GenerateAttributes
    }

    fn run<L: EngineLink, R: RandomSource>(
        &self,
        env: &mut Environment,
        link: &mut L,
        rng: &mut R,
    ) -> (r: Result<(), Failure>)
        ensures
            final(link).world() == old(link).world(),
            step_matches(
                self.denote(),
                old(env)@,
                final(env)@,
                old(link).world(),
                old(link).calls(),
                final(link).calls(),
                old(rng).taken(),
                final(rng).taken(),
                r,
            ),
    {
        ActionKind::GenerateAttributes(*self).execute(env, link, rng)
    }
}

impl Action for GenerateNextPayload {
    open spec fn denote(&self) -> ActionView {
        ActionView::GeneratePayload
    }

    fn run<L: EngineLink, R: RandomSource>(
        &self,
        env: &mut Environment,
        link: &mut L,
        rng: &mut R,
    ) -> (r: Result<(), Failure>)
        ensures
            final(link).world() == old(link).world(),
            step_matches(
                self.denote(),
                old(env)@,
                final(env)@,
                old(link).world(),
                old(link).calls(),
                final(link).calls(),
                old(rng).taken(),
                final(rng).taken(),
                r,
            ),
    {
        ActionKind::GeneratePayload(*self).execute(env, link, rng)
    }
}

impl Action for BroadcastLatestForkchoice {
    open spec fn denote(&self) -> ActionView {
        ActionView::BroadcastForkchoice
    }

    fn run<L: EngineLink, R: RandomSource>(
        &self,
        env: &mut Environment,
        link: &mut L,
        rng: &mut R,
    ) -> (r: Result<(), Failure>)
        ensures
            final(link).world() == old(link).world(),
            step_matches(
                self.denote(),
                old(env)@,
                final(env)@,
                old(link).world(),
                old(link).calls(),
                final(link).calls(),
                old(rng).taken(),
                final(rng).taken(),
                r,
            ),
    {
        ActionKind::BroadcastForkchoice(*self).execute(env, link, rng)
    }
}

impl Action for CheckPayloadAccepted {
    open spec fn denote(&self) -> ActionView {
        ActionView::CheckAccepted
    }

    fn run<L: EngineLink, R: RandomSource>(
        &self,
        env: &mut Environment,
        link: &mut L,
        rng: &mut R,
    ) -> (r: Result<(), Failure>)
        ensures
            final(link).world() == old(link).world(),
            step_matches(
                self.denote(),
                old(env)@,
                final(env)@,
                old(link).world(),
                old(link).calls(),
                final(link).calls(),
                old(rng).taken(),
                final(rng).taken(),
                r,
            ),
    {
        ActionKind::CheckAccepted(*self).execute(env, link, rng)
    }
}

impl Action for BroadcastNextNewPayload {
    open spec fn denote(&self) -> ActionView {
        ActionView::BroadcastPayload
    }

    fn run<L: EngineLink, R: RandomSource>(
        &self,
        env: &mut Environment,
        link: &mut L,
        rng: &mut R,
    ) -> (r: Result<(), Failure>)
        ensures
            final(link).world() == old(link).world(),
            step_matches(
                self.denote(),
                old(env)@,
                final(env)@,
                old(link).world(),
                old(link).calls(),
                final(link).calls(),
                old(rng).taken(),
                final(rng).taken(),
                r,
            ),
    {
        ActionKind::BroadcastPayload(*self).execute(env, link, rng)
    }
}

impl Action for AssertMineBlock {
    open spec fn denote(&self) -> ActionView {
        ActionView::Mine { node_idx: self.node_idx }
    }

    fn run<L: EngineLink, R: RandomSource>(
        &self,
        env: &mut Environment,
        link: &mut L,
        rng: &mut R,
    ) -> (r: Result<(), Failure>)
        ensures
            final(link).world() == old(link).world(),
            step_matches(
                self.denote(),
                old(env)@,
                final(env)@,
                old(link).world(),
                old(link).calls(),
                final(link).calls(),
                old(rng).taken(),
                final(rng).taken(),
                r,
            ),
    {
        let r = self.execute(env, link);
        proof {
            lemma_drawless_step(
                self.denote(),
                old(env)@,
                env@,
                old(link).world(),
                old(link).calls(),
                link.calls(),
                rng.taken(),
                r,
                assert_mine_block_spec(self.node_idx, old(env)@, old(link).world()),
            );
        }
        r
    }
}

} // verus!
