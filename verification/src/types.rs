//! Plain data carried between the orchestration core and the peers: hashes,
//! addresses, payload attributes, headers, blocks, and the failure taxonomy.

use vstd::prelude::*;

verus! {

/// A 256-bit word (a block hash, a randomness value, a beacon root),
/// held as two 128-bit halves, `hi` before `lo` in big-endian order.
#[derive(Clone, Copy, Debug, PartialEq, Eq, Structural)]
pub struct Hash256 {
    /// The upper 16 bytes.
    pub hi: u128,
    /// The lower 16 bytes.
    pub lo: u128,
}

impl Hash256 {
    /// The all-zero word.
    pub fn zero() -> (r: Hash256)
        ensures
            r == (Hash256 { hi: 0, lo: 0 }),
    {
        Hash256 { hi: 0, lo: 0 }
    }
}

/// A 160-bit account address, held as a 4-byte upper part and a 16-byte
/// lower part, `hi` before `lo` in big-endian order.
#[derive(Clone, Copy, Debug, PartialEq, Eq, Structural)]
pub struct Address {
    /// The upper 4 bytes.
    pub hi: u32,
    /// The lower 16 bytes.
    pub lo: u128,
}

/// An unsigned 256-bit quantity (a header's difficulty), held as two
/// 128-bit halves.
#[derive(Clone, Copy, Debug, PartialEq, Eq, Structural)]
pub struct Uint256 {
    /// The upper 16 bytes.
    pub hi: u128,
    /// The lower 16 bytes.
    pub lo: u128,
}

impl Uint256 {
    /// Whether the quantity is zero.
    pub open spec fn spec_is_zero(&self) -> bool {
        self.hi == 0 && self.lo == 0
    }

    /// Whether the quantity is zero.
    pub fn is_zero(&self) -> (r: bool)
        ensures
            r == self.spec_is_zero(),
    {
        self.hi == 0 && self.lo == 0
    }
}

/// The opaque 8-byte handle returned by a fork-choice update that started
/// payload assembly.
#[derive(Clone, Copy, Debug, PartialEq, Eq, Structural)]
pub struct PayloadId {
    /// The raw 8 bytes of the identifier.
    pub raw: u64,
}

impl View for PayloadId {
    type V = PayloadId;

    open spec fn view(&self) -> PayloadId {
        *self
    }
}

/// The hash and number of the block the run currently agrees on.
#[derive(Clone, Copy, Debug, PartialEq, Eq, Structural)]
pub struct BlockInfo {
    /// The block's hash.
    pub hash: Hash256,
    /// The block's number.
    pub number: u64,
}

/// The fork-choice triple a control-plane client asserts as canonical.
#[derive(Clone, Copy, Debug, PartialEq, Eq, Structural)]
pub struct ForkchoiceState {
    /// The canonical head block hash.
    pub head_block_hash: Hash256,
    /// The safe block hash.
    pub safe_block_hash: Hash256,
    /// The finalized block hash.
    pub finalized_block_hash: Hash256,
}

impl ForkchoiceState {
    /// The all-zero state.
    pub fn zero() -> (r: ForkchoiceState)
        ensures
            r == ForkchoiceState::spec_zero(),
    {
        ForkchoiceState {
            head_block_hash: Hash256 { hi: 0, lo: 0 },
            safe_block_hash: Hash256 { hi: 0, lo: 0 },
            finalized_block_hash: Hash256 { hi: 0, lo: 0 },
        }
    }

    /// The all-zero state.
    pub open spec fn spec_zero() -> ForkchoiceState {
        ForkchoiceState {
            head_block_hash: Hash256 { hi: 0, lo: 0 },
            safe_block_hash: Hash256 { hi: 0, lo: 0 },
            finalized_block_hash: Hash256 { hi: 0, lo: 0 },
        }
    }

    /// The state whose head, safe and finalized hashes all equal `hash`.
    pub open spec fn spec_all(hash: Hash256) -> ForkchoiceState {
        ForkchoiceState { head_block_hash: hash, safe_block_hash: hash, finalized_block_hash: hash }
    }

    /// The state whose head, safe and finalized hashes all equal `hash`.
    pub fn all(hash: Hash256) -> (r: ForkchoiceState)
        ensures
            r == ForkchoiceState::spec_all(hash),
    {
        ForkchoiceState { head_block_hash: hash, safe_block_hash: hash, finalized_block_hash: hash }
    }
}

/// One withdrawal operation carried in a payload or a block body.
#[derive(Clone, Copy, Debug, PartialEq, Eq, Structural)]
pub struct Withdrawal {
    /// The withdrawal's monotonically increasing index.
    pub index: u64,
    /// The validator the withdrawal belongs to.
    pub validator_index: u64,
    /// The address the amount is credited to.
    pub address: Address,
    /// The amount, in gwei.
    pub amount_gwei: u64,
}

/// Parameters instructing a peer to begin assembling a new block.
#[derive(Debug)]
pub struct PayloadAttributes {
    /// The timestamp the new block must carry.
    pub timestamp: u64,
    /// The randomness value the new block must carry.
    pub prev_randao: Hash256,
    /// The fee recipient suggested for the new block.
    pub suggested_fee_recipient: Address,
    /// The withdrawals to include, when the fork requires them.
    pub withdrawals: Option<Vec<Withdrawal>>,
    /// The consensus-layer parent root, when the fork requires it.
    pub parent_beacon_block_root: Option<Hash256>,
}

/// The mathematical value of a [`PayloadAttributes`].
pub struct PayloadAttributesView {
    /// The timestamp the new block must carry.
    pub timestamp: u64,
    /// The randomness value the new block must carry.
    pub prev_randao: Hash256,
    /// The fee recipient suggested for the new block.
    pub suggested_fee_recipient: Address,
    /// The withdrawals to include, when the fork requires them.
    pub withdrawals: Option<Seq<Withdrawal>>,
    /// The consensus-layer parent root, when the fork requires it.
    pub parent_beacon_block_root: Option<Hash256>,
}

impl View for PayloadAttributes {
    type V = PayloadAttributesView;

    open spec fn view(&self) -> PayloadAttributesView {
        PayloadAttributesView {
            timestamp: self.timestamp,
            prev_randao: self.prev_randao,
            suggested_fee_recipient: self.suggested_fee_recipient,
            withdrawals: match self.withdrawals {
                Some(w) => Some(w@),
                None => None,
            },
            parent_beacon_block_root: self.parent_beacon_block_root,
        }
    }
}

impl Clone for PayloadAttributes {
    fn clone(&self) -> (r: Self)
        ensures
            r@ == self@,
    {
        PayloadAttributes {
            timestamp: self.timestamp,
            prev_randao: self.prev_randao,
            suggested_fee_recipient: self.suggested_fee_recipient,
            withdrawals: match &self.withdrawals {
                Some(w) => Some(clone_withdrawals(w)),
                None => None,
            },
            parent_beacon_block_root: self.parent_beacon_block_root,
        }
    }
}

/// Copies a withdrawal list element by element.
fn clone_withdrawals(w: &Vec<Withdrawal>) -> (r: Vec<Withdrawal>)
    ensures
        r@ == w@,
{
    let mut r: Vec<Withdrawal> = Vec::new();
    let mut i: usize = 0;
    while i < w.len()
        invariant
            i <= w.len(),
            r@ == w@.take(i as int),
        decreases w.len() - i,
    {
        r.push(w[i]);
        proof {
            assert(w@.take(i + 1 as int) == w@.take(i as int).push(w@[i as int]));
        }
        i = i + 1;
    }
    proof {
        assert(w@.take(w@.len() as int) == w@);
    }
    r
}

/// Copies a byte vector element by element.
pub fn clone_bytes(b: &Vec<u8>) -> (r: Vec<u8>)
    ensures
        r@ == b@,
{
    let mut r: Vec<u8> = Vec::new();
    let mut i: usize = 0;
    while i < b.len()
        invariant
            i <= b.len(),
            r@ == b@.take(i as int),
        decreases b.len() - i,
    {
        r.push(b[i]);
        proof {
            assert(b@.take(i + 1 as int) == b@.take(i as int).push(b@[i as int]));
        }
        i = i + 1;
    }
    proof {
        assert(b@.take(b@.len() as int) == b@);
    }
    r
}

/// A block header as a peer reports it: the sealed hash together with the
/// fields the protocol checks read.
#[derive(Debug)]
pub struct BlockHeader {
    /// The sealed header hash.
    pub hash: Hash256,
    /// The block number.
    pub number: u64,
    /// The block timestamp.
    pub timestamp: u64,
    /// The difficulty field; zero after the merge.
    pub difficulty: Uint256,
    /// The mix-hash field, carrying the randomness value after the merge.
    pub mix_hash: Hash256,
    /// The extra-data bytes.
    pub extra_data: Vec<u8>,
    /// The consensus-layer parent root, when the fork requires it.
    pub parent_beacon_block_root: Option<Hash256>,
}

/// The mathematical value of a [`BlockHeader`].
pub struct BlockHeaderView {
    /// The sealed header hash.
    pub hash: Hash256,
    /// The block number.
    pub number: u64,
    /// The block timestamp.
    pub timestamp: u64,
    /// The difficulty field; zero after the merge.
    pub difficulty: Uint256,
    /// The mix-hash field, carrying the randomness value after the merge.
    pub mix_hash: Hash256,
    /// The extra-data bytes.
    pub extra_data: Seq<u8>,
    /// The consensus-layer parent root, when the fork requires it.
    pub parent_beacon_block_root: Option<Hash256>,
}

impl View for BlockHeader {
    type V = BlockHeaderView;

    open spec fn view(&self) -> BlockHeaderView {
        BlockHeaderView {
            hash: self.hash,
            number: self.number,
            timestamp: self.timestamp,
            difficulty: self.difficulty,
            mix_hash: self.mix_hash,
            extra_data: self.extra_data@,
            parent_beacon_block_root: self.parent_beacon_block_root,
        }
    }
}

impl Clone for BlockHeader {
    fn clone(&self) -> (r: Self)
        ensures
            r@ == self@,
    {
        BlockHeader {
            hash: self.hash,
            number: self.number,
            timestamp: self.timestamp,
            difficulty: self.difficulty,
            mix_hash: self.mix_hash,
            extra_data: clone_bytes(&self.extra_data),
            parent_beacon_block_root: self.parent_beacon_block_root,
        }
    }
}

/// A block as a peer reports it: the header plus the body parts a new-payload
/// submission carries along.
#[derive(Debug)]
pub struct BlockData {
    /// The block header.
    pub header: BlockHeader,
    /// The encoded transactions of the body.
    pub transactions: Vec<Vec<u8>>,
    /// The withdrawals of the body, when the fork requires them.
    pub withdrawals: Option<Vec<Withdrawal>>,
}

/// The mathematical value of a [`BlockData`].
pub struct BlockView {
    /// The block header.
    pub header: BlockHeaderView,
    /// The encoded transactions of the body.
    pub transactions: Seq<Seq<u8>>,
    /// The withdrawals of the body, when the fork requires them.
    pub withdrawals: Option<Seq<Withdrawal>>,
}

impl View for BlockData {
    type V = BlockView;

    open spec fn view(&self) -> BlockView {
        BlockView {
            header: self.header@,
            transactions: Seq::new(self.transactions@.len(), |i: int| self.transactions@[i]@),
            withdrawals: match self.withdrawals {
                Some(w) => Some(w@),
                None => None,
            },
        }
    }
}

impl Clone for BlockData {
    fn clone(&self) -> (r: Self)
        ensures
            r@ == self@,
    {
        let mut transactions: Vec<Vec<u8>> = Vec::new();
        let mut i: usize = 0;
        while i < self.transactions.len()
            invariant
                i <= self.transactions.len(),
                transactions@.len() == i,
                forall|j: int| 0 <= j < i ==> transactions@[j]@ == self.transactions@[j]@,
            decreases self.transactions.len() - i,
        {
            transactions.push(clone_bytes(&self.transactions[i]));
            i = i + 1;
        }
        let r = BlockData {
            header: self.header.clone(),
            transactions,
            withdrawals: match &self.withdrawals {
                Some(w) => Some(clone_withdrawals(w)),
                None => None,
            },
        };
        proof {
            assert(r@.transactions =~= self@.transactions);
            assert(r@ =~= self@);
        }
        r
    }
}

/// The status a control-plane call reports for a submitted or built payload.
///
/// A peer that rejects a payload also names its validation error; that text
/// is diagnostic narration only and is dropped at the interface boundary.
#[derive(Clone, Copy, Debug, PartialEq, Eq, Structural)]
pub enum PayloadStatus {
    /// The payload was validated and adopted.
    Valid,
    /// The payload failed validation.
    Invalid,
    /// The peer is still syncing and could not judge the payload.
    Syncing,
    /// The payload was accepted for later validation.
    Accepted,
}

/// What a fork-choice update returns: a payload status, and the identifier
/// of the payload build the call started, if it started one.
#[derive(Clone, Copy, Debug)]
pub struct ForkchoiceResult {
    /// The status of the head the update named.
    pub payload_status: PayloadStatus,
    /// The identifier of the payload build the update started.
    pub payload_id: Option<PayloadId>,
}

/// A built payload as the control surface hands it back: the execution block
/// hash together with the attribute view of the payload.
#[derive(Debug)]
pub struct PayloadEnvelope {
    /// The hash of the execution block the payload builds.
    pub block_hash: Hash256,
    /// The attribute view of the built payload.
    pub attributes: PayloadAttributes,
}

/// The mathematical value of a [`PayloadEnvelope`].
pub struct PayloadEnvelopeView {
    /// The hash of the execution block the payload builds.
    pub block_hash: Hash256,
    /// The attribute view of the built payload.
    pub attributes: PayloadAttributesView,
}

impl View for PayloadEnvelope {
    type V = PayloadEnvelopeView;

    open spec fn view(&self) -> PayloadEnvelopeView {
        PayloadEnvelopeView { block_hash: self.block_hash, attributes: self.attributes@ }
    }
}

impl Clone for PayloadEnvelope {
    fn clone(&self) -> (r: Self)
        ensures
            r@ == self@,
    {
        PayloadEnvelope { block_hash: self.block_hash, attributes: self.attributes.clone() }
    }
}

/// A transport or protocol error a peer call itself reported, as opposed to
/// a protocol-level predicate that failed on a fetched value.
#[derive(Clone, Copy, Debug, PartialEq, Eq, Structural)]
pub struct LinkError {
    /// An error code the transport assigned.
    pub code: u64,
}

/// Why an action failed: a missing precondition on the run context, a failed
/// peer call, a violated protocol predicate, or an exhausted peer scan.
#[derive(Clone, Copy, Debug, PartialEq, Eq, Structural)]
pub enum Failure {
    /// No node peers are available.
    NoPeers,
    /// The run context holds no latest block information yet.
    NoLatestBlockInfo,
    /// No peer agreed with the stored latest block information.
    NoProducerFound,
    /// A peer call itself failed.
    PeerCall(LinkError),
    /// A peer reported no latest block where one was required.
    MissingLatestBlock,
    /// A peer reported no latest header where one was required.
    MissingLatestHeader,
    /// No payload attributes are staged for the block they are needed for.
    NoPayloadAttributes,
    /// A fork-choice update returned no payload identifier.
    NoPayloadId,
    /// No payload identifier is recorded for the block being checked.
    PayloadIdNotFound,
    /// A fork-choice update reported a status other than valid.
    PayloadNotValid,
    /// The selected node index lies outside the peer list.
    NodeIndexOutOfBounds,
    /// No built payload is staged in the run context.
    NoPayloadBuilt,
    /// The staged built payload carries no parent beacon root.
    NoParentBeaconRoot,
    /// A peer's latest block carries no parent beacon root.
    BlockWithoutBeaconRoot,
    /// A peer's latest block number differs from the expected number.
    BlockNumberMismatch {
        /// The number the run context expects.
        expected: u64,
        /// The number the peer reported.
        actual: u64,
    },
    /// A peer's parent beacon root differs from the expected root.
    BeaconRootMismatch {
        /// The root the staged payload expects.
        expected: Hash256,
        /// The root the peer's block carries.
        actual: Hash256,
    },
    /// No peer passed the payload acceptance checks.
    NoPayloadAccepted,
    /// No peer returned a valid status for the broadcast payload.
    NoBroadcastAccepted,
    /// A block number or timestamp computation left the 64-bit range.
    ArithmeticOverflow,
}

} // verus!
