//! Fresh randomness for attribute generation: a source abstraction, the
//! operating-system-backed source, and a fixed source for scripted runs.

use vstd::prelude::*;

use crate::types::{Address, Hash256};

verus! {

/// One draw of fresh randomness: the randomness value and the fee recipient
/// one attribute generation consumes.
#[derive(Clone, Copy, Debug, PartialEq, Eq, Structural)]
pub struct RandomDraw {
    /// A fresh 32-byte randomness value.
    pub prev_randao: Hash256,
    /// A fresh 20-byte fee-recipient address.
    pub fee_recipient: Address,
}

/// A source of fresh randomness. Nothing is promised of the values drawn;
/// the source only keeps the ghost record of what it handed out, so that a
/// step's contract can name the draws it consumed.
pub trait RandomSource: Sized {
    /// The draws handed out so far, oldest first.
    spec fn taken(&self) -> Seq<RandomDraw>;

    /// Hands out one fresh draw.
    fn fresh_draw(&mut self) -> (d: RandomDraw)
        ensures
            final(self).taken() == old(self).taken().push(d),
    ;
}

/// Draws a fresh 32-byte word from the operating system's randomness.
///
/// Relies on `alloy_primitives::B256::random`: 32 cryptographically random
/// bytes. Nothing is promised of the value.
#[verifier::external_body]
fn os_random_word() -> (r: Hash256) {
    let b = alloy_primitives::B256::random();
    let bytes: [u8; 32] = b.0;
    let hi = u128::from_be_bytes(bytes[0..16].try_into().unwrap());
    let lo = u128::from_be_bytes(bytes[16..32].try_into().unwrap());
    Hash256 { hi, lo }
}

/// Draws a fresh 20-byte address from the operating system's randomness.
///
/// Relies on `alloy_primitives::Address::random`: 20 cryptographically
/// random bytes. Nothing is promised of the value.
#[verifier::external_body]
fn os_random_address() -> (r: Address) {
    let a = alloy_primitives::Address::random();
    let bytes: [u8; 20] = a.0.0;
    let hi = u32::from_be_bytes(bytes[0..4].try_into().unwrap());
    let lo = u128::from_be_bytes(bytes[4..20].try_into().unwrap());
    Address { hi, lo }
}

/// The randomness source of a live run: every draw comes fresh from the
/// operating system.
pub struct OsRandom {
    /// The ghost record of the draws handed out.
    pub history: Ghost<Seq<RandomDraw>>,
}

impl OsRandom {
    /// A source with an empty record.
    pub fn new() -> (r: OsRandom)
        ensures
            r.taken() == Seq::<RandomDraw>::empty(),
    {
        OsRandom { history: Ghost(Seq::empty()) }
    }
}

impl RandomSource for OsRandom {
    open spec fn taken(&self) -> Seq<RandomDraw> {
        self.history@
    }

    fn fresh_draw(&mut self) -> (d: RandomDraw)
        ensures
            final(self).taken() == old(self).taken().push(d),
    {
        let d = RandomDraw { prev_randao: os_random_word(), fee_recipient: os_random_address() };
        proof {
            self.history@ = self.history@.push(d);
        }
        d
    }
}

/// A randomness source for scripted runs: hands out the stored draws in
/// order, cycling, and the zero draw if none are stored.
pub struct FixedRandom {
    /// The draws to hand out, in order.
    pub values: Vec<RandomDraw>,
    /// The position of the next draw.
    pub cursor: usize,
    /// The ghost record of the draws handed out.
    pub history: Ghost<Seq<RandomDraw>>,
}

impl FixedRandom {
    /// A source handing out `values` in order, starting at the first.
    pub fn new(values: Vec<RandomDraw>) -> (r: FixedRandom)
        ensures
            r.taken() == Seq::<RandomDraw>::empty(),
    {
        FixedRandom { values, cursor: 0, history: Ghost(Seq::empty()) }
    }
}

impl RandomSource for FixedRandom {
    open spec fn taken(&self) -> Seq<RandomDraw> {
        self.history@
    }

    fn fresh_draw(&mut self) -> (d: RandomDraw)
        ensures
            final(self).taken() == old(self).taken().push(d),
    {
        let d = if self.values.len() == 0 {
            RandomDraw {
                prev_randao: Hash256 { hi: 0, lo: 0 },
                fee_recipient: Address { hi: 0, lo: 0 },
            }
        } else {
            let at = self.cursor % self.values.len();
            self.cursor = at + 1;
            self.values[at]
        };
        proof {
            self.history@ = self.history@.push(d);
        }
        d
    }
}

} // verus!
