//! Producer selection: choose which peer is the canonical source of truth
//! for the latest block this round, tolerating peers whose view has not yet
//! caught up.

use vstd::prelude::*;

use vstd::arithmetic::div_mod::{lemma_mod_bound, lemma_mod_sub_multiples_vanish, lemma_small_mod};

use crate::env::{EnvView, Environment};
use crate::link::{CallTag, EngineLink, PeerView};
use crate::outcome::Outcome;
use crate::types::{BlockInfo, BlockView, Failure, LinkError};

verus! {

/// Selects the next block producer: scans the peers round-robin from a
/// starting index derived from the agreed block number, and records the
/// first peer whose own latest block equals the agreed one.
#[derive(Clone, Copy, Debug, Default)]
pub struct PickNextBlockProducer {}

impl PickNextBlockProducer {
    /// Creates a new producer-selection step.
    pub fn new() -> (r: PickNextBlockProducer) {
        PickNextBlockProducer {}
    }
}

/// Where the round-robin scan begins: `(number + 1) mod count`.
pub open spec fn scan_start(number: u64, count: int) -> int {
    (number + 1) % count
}

/// The peer index the scan visits at offset `i`.
pub open spec fn scan_index(number: u64, count: int, i: int) -> int {
    (scan_start(number, count) + i) % count
}

/// Whether a latest-block answer reports exactly the agreed block: a block
/// is present and both its hash and its number equal the agreed ones.
pub open spec fn block_matches(resp: Result<Option<BlockView>, LinkError>, info: BlockInfo) -> bool {
    match resp {
        Ok(Some(b)) => b.header.hash == info.hash && b.header.number == info.number,
        _ => false,
    }
}

/// The producer scan from offset `i` on: the first matching peer in
/// round-robin order is recorded as producer; a failed peer call aborts the
/// scan; exhaustion reports that no producer was found.
pub open spec fn pick_scan(env: EnvView, w: Seq<PeerView>, info: BlockInfo, i: int) -> Outcome
    recommends
        0 < w.len(),
        0 <= i <= w.len(),
    decreases w.len() - i,
{
    if i >= w.len() {
        Outcome { env, result: Err(Failure::NoProducerFound), calls: Seq::empty(), draws: 0 }
    } else {
        let idx = scan_index(info.number, w.len() as int, i);
        let call = CallTag::LatestBlock { peer: idx as usize };
        match w[idx].latest_block {
            Err(e) => Outcome {
                env,
                result: Err(Failure::PeerCall(e)),
                calls: seq![call],
                draws: 0,
            },
            Ok(ob) => {
                if block_matches(Ok(ob), info) {
                    Outcome {
                        env: env.with_last_producer(idx as usize),
                        result: Ok(()),
                        calls: seq![call],
                        draws: 0,
                    }
                } else {
                    let rest = pick_scan(env, w, info, i + 1);
                    Outcome {
                        env: rest.env,
                        result: rest.result,
                        calls: seq![call] + rest.calls,
                        draws: 0,
                    }
                }
            },
        }
    }
}

/// What producer selection denotes: with no peers or no agreed block it
/// halts; otherwise it runs the round-robin scan from the starting index.
pub open spec fn pick_next_block_producer_spec(env: EnvView, w: Seq<PeerView>) -> Outcome {
    if w.len() == 0 {
        Outcome::halt(env, Failure::NoPeers)
    } else {
        match env.latest_block_info {
            None => Outcome::halt(env, Failure::NoLatestBlockInfo),
            Some(info) => pick_scan(env, w, info, 0),
        }
    }
}

impl PickNextBlockProducer {
    /// Runs producer selection against the context and the peers.
    #[verifier::loop_isolation(false)]
    pub fn execute<L: EngineLink>(&self, env: &mut Environment, link: &mut L) -> (r: Result<
        (),
        Failure,
    >)
        ensures
            ({
                let o = pick_next_block_producer_spec(old(env)@, old(link).world());
                &&& final(env)@ == o.env
                &&& r == o.result
                &&& final(link).world() == old(link).world()
                &&& final(link).calls() == old(link).calls() + o.calls
            }),
    {
        let ghost env0 = old(env)@;
        let ghost w = old(link).world();
        let ghost calls0 = old(link).calls();
        let count = link.num_peers();
        if count == 0 {
            return Err(Failure::NoPeers);
        }
        let info = match env.latest_block_info {
            Some(i) => i,
            None => {
                return Err(Failure::NoLatestBlockInfo);
            },
        };
        let ghost full = pick_scan(env0, w, info, 0);
        let start: usize = ((info.number as u128 + 1) % (count as u128)) as usize;
        proof {
            lemma_mod_bound(info.number as int + 1, count as int);
            assert(start as int == scan_start(info.number, count as int));
        }
        let ghost mut made: Seq<CallTag> = Seq::empty();
        let mut i: usize = 0;
        while i < count
            invariant
                0 <= i <= count,
                env@ == env0,
                link.world() == w,
                link.calls() == calls0 + made,
                full.env == pick_scan(env0, w, info, i as int).env,
                full.result == pick_scan(env0, w, info, i as int).result,
                full.calls == made + pick_scan(env0, w, info, i as int).calls,
            decreases count - i,
        {
            let idx: usize = if i < count - start {
                start + i
            } else {
                i - (count - start)
            };
            proof {
                if start + i < count {
                    lemma_small_mod((start + i) as nat, count as nat);
                } else {
                    lemma_mod_sub_multiples_vanish(start as int + i as int, count as int);
                    lemma_small_mod((start + i - count) as nat, count as nat);
                }
                assert(idx as int == scan_index(info.number, count as int, i as int));
            }
            let resp = link.latest_block(idx);
            proof {
                made = made.push(CallTag::LatestBlock { peer: idx });
            }
            match resp {
                Err(e) => {
                    proof {
                        assert(full.calls =~= made);
                    }
                    return Err(Failure::PeerCall(e));
                },
                Ok(Some(b)) => {
                    if b.header.hash == info.hash && b.header.number == info.number {
                        env.last_producer_idx = Some(idx);
                        proof {
                            assert(full.calls =~= made);
                            assert(env@ =~= env0.with_last_producer(idx));
                        }
                        return Ok(());
                    }
                },
                Ok(None) => {},
            }
            proof {
                assert(full.calls =~= made + pick_scan(env0, w, info, i + 1).calls);
            }
            i = i + 1;
        }
        Err(Failure::NoProducerFound)
    }
}

} // verus!
