//! Attribute generation: compute the attributes for the next block and
//! stage them for the build step.

use vstd::prelude::*;

use crate::env::{EnvView, Environment};
use crate::outcome::Outcome;
use crate::random::{RandomDraw, RandomSource};
use crate::types::{Failure, Hash256, PayloadAttributes, PayloadAttributesView};

verus! {

/// Stages payload attributes for the next block: the next timestamp is the
/// latest header time plus the configured increment, the randomness value
/// and fee recipient are drawn fresh, the withdrawal list is empty, and the
/// parent beacon root is zero. No peer is contacted.
#[derive(Clone, Copy, Debug, Default)]
pub struct GeneratePayloadAttributes {}

impl GeneratePayloadAttributes {
    /// Creates a new attribute-generation step.
    pub fn new() -> (r: GeneratePayloadAttributes) {
        GeneratePayloadAttributes {}
    }
}

/// The attributes staged for the agreed block's successor, given the draw.
pub open spec fn staged_attributes(env: EnvView, d: RandomDraw) -> PayloadAttributesView {
    PayloadAttributesView {
        timestamp: (env.latest_header_time + env.block_timestamp_increment) as u64,
        prev_randao: d.prev_randao,
        suggested_fee_recipient: d.fee_recipient,
        withdrawals: Some(Seq::empty()),
        parent_beacon_block_root: Some(Hash256 { hi: 0, lo: 0 }),
    }
}

/// What attribute generation denotes: it requires an agreed block, computes
/// the next timestamp, and stages the attribute bundle under the key one
/// past the agreed block number, consuming one random draw. Computations
/// that would leave the 64-bit range fail instead.
pub open spec fn generate_payload_attributes_spec(env: EnvView, draws: Seq<RandomDraw>) -> Outcome {
    match env.latest_block_info {
        None => Outcome::halt(env, Failure::NoLatestBlockInfo),
        Some(info) => {
            if env.latest_header_time + env.block_timestamp_increment > u64::MAX {
                Outcome::halt(env, Failure::ArithmeticOverflow)
            } else if info.number + 1 > u64::MAX {
                Outcome::halt(env, Failure::ArithmeticOverflow)
            } else {
                Outcome {
                    env: env.with_attributes_staged(
                        (info.number + 1) as u64,
                        staged_attributes(env, draws[0]),
                    ),
                    result: Ok(()),
                    calls: Seq::empty(),
                    draws: 1,
                }
            }
        },
    }
}

impl GeneratePayloadAttributes {
    /// Runs attribute generation against the context, drawing fresh
    /// randomness from `rng`.
    pub fn execute<R: RandomSource>(&self, env: &mut Environment, rng: &mut R) -> (r: Result<
        (),
        Failure,
    >)
        ensures
            ({
                let consumed = final(rng).taken().skip(old(rng).taken().len() as int);
                let o = generate_payload_attributes_spec(old(env)@, consumed);
                &&& final(env)@ == o.env
                &&& r == o.result
                &&& final(rng).taken().len() == old(rng).taken().len() + o.draws
                &&& final(rng).taken().take(old(rng).taken().len() as int) == old(rng).taken()
            }),
    {
        let ghost env0 = old(env)@;
        let ghost len0 = old(rng).taken().len();
        let info = match env.latest_block_info {
            Some(i) => i,
            None => {
                proof {
                    assert(rng.taken().skip(len0 as int) =~= Seq::<RandomDraw>::empty());
                    assert(rng.taken().take(len0 as int) =~= rng.taken());
                }
                return Err(Failure::NoLatestBlockInfo);
            },
        };
        if env.latest_header_time > u64::MAX - env.block_timestamp_increment {
            proof {
                assert(rng.taken().skip(len0 as int) =~= Seq::<RandomDraw>::empty());
                assert(rng.taken().take(len0 as int) =~= rng.taken());
            }
            return Err(Failure::ArithmeticOverflow);
        }
        let timestamp = env.latest_header_time + env.block_timestamp_increment;
        if info.number == u64::MAX {
            proof {
                assert(rng.taken().skip(len0 as int) =~= Seq::<RandomDraw>::empty());
                assert(rng.taken().take(len0 as int) =~= rng.taken());
            }
            return Err(Failure::ArithmeticOverflow);
        }
        let d = rng.fresh_draw();
        let attrs = PayloadAttributes {
            timestamp,
            prev_randao: d.prev_randao,
            suggested_fee_recipient: d.fee_recipient,
            withdrawals: Some(Vec::new()),
            parent_beacon_block_root: Some(Hash256::zero()),
        };
        proof {
            assert(attrs@ == staged_attributes(env0, d));
        }
        env.payload_attributes.insert(info.number + 1, attrs);
        proof {
            let consumed = rng.taken().skip(len0 as int);
            assert(consumed =~= seq![d]);
            assert(rng.taken().take(len0 as int) =~= old(rng).taken());
            assert(env@ =~= env0.with_attributes_staged(
                (info.number + 1) as u64,
                staged_attributes(env0, consumed[0]),
            ));
        }
        Ok(())
    }
}

} // verus!
