//! The peer capability surface: the query ("eth") and control ("engine")
//! calls one node peer answers, together with a scripted implementation
//! whose answers are plain data.
//!
//! An [`EngineLink`] value stands for the whole ordered peer list of a run.
//! Its specification model is a *world* — per peer, the answer each call
//! would receive — plus a growing *trace* of the calls made. Every verified
//! step states its outcome as a function of the world and extends the trace
//! deterministically, so scanning order and early stopping are part of the
//! contracts.

use vstd::prelude::*;

use crate::types::{BlockData, BlockHeader, BlockHeaderView, BlockView, ForkchoiceResult,
    ForkchoiceState, Hash256, LinkError, PayloadAttributes, PayloadEnvelope, PayloadEnvelopeView,
    PayloadId, PayloadStatus};

verus! {

/// One peer call, as the trace records it.
#[derive(Clone, Copy, Debug, PartialEq, Eq, Structural)]
pub enum CallTag {
    /// A query for the peer's latest block.
    LatestBlock {
        /// The peer asked.
        peer: usize,
    },
    /// A query for the peer's latest header.
    LatestHeader {
        /// The peer asked.
        peer: usize,
    },
    /// A two-field fork-choice update.
    ForkchoiceUpdatedV2 {
        /// The peer told.
        peer: usize,
        /// The head hash the update named.
        head: Hash256,
        /// Whether payload attributes were carried along.
        with_attributes: bool,
    },
    /// A three-field fork-choice update.
    ForkchoiceUpdatedV3 {
        /// The peer told.
        peer: usize,
        /// The head hash the update named.
        head: Hash256,
        /// Whether payload attributes were carried along.
        with_attributes: bool,
    },
    /// A legacy retrieval of a built payload.
    GetPayloadV2 {
        /// The peer asked.
        peer: usize,
        /// The identifier of the build retrieved.
        id: PayloadId,
    },
    /// A retrieval of a built payload.
    GetPayloadV3 {
        /// The peer asked.
        peer: usize,
        /// The identifier of the build retrieved.
        id: PayloadId,
    },
    /// A new-payload submission.
    NewPayload {
        /// The peer told.
        peer: usize,
        /// The number of the block submitted.
        block_number: u64,
        /// The parent beacon root submitted alongside.
        parent_beacon_block_root: Hash256,
    },
}

/// The answers one peer holds ready, one per call kind. A call made twice
/// within one step would receive the same answer; no step does so.
#[derive(Debug)]
pub struct PeerScript {
    /// The answer to a latest-block query.
    pub latest_block: Result<Option<BlockData>, LinkError>,
    /// The answer to a latest-header query.
    pub latest_header: Result<Option<BlockHeader>, LinkError>,
    /// The answer to a two-field fork-choice update.
    pub fcu_v2: Result<ForkchoiceResult, LinkError>,
    /// The answer to a three-field fork-choice update.
    pub fcu_v3: Result<ForkchoiceResult, LinkError>,
    /// The answer to a legacy payload retrieval.
    pub get_payload_v2: Result<PayloadEnvelope, LinkError>,
    /// The answer to a payload retrieval.
    pub get_payload_v3: Result<PayloadEnvelope, LinkError>,
    /// The answer to a new-payload submission.
    pub new_payload: Result<PayloadStatus, LinkError>,
}

/// The mathematical value of one peer's answers.
pub struct PeerView {
    /// The answer to a latest-block query.
    pub latest_block: Result<Option<BlockView>, LinkError>,
    /// The answer to a latest-header query.
    pub latest_header: Result<Option<BlockHeaderView>, LinkError>,
    /// The answer to a two-field fork-choice update.
    pub fcu_v2: Result<ForkchoiceResult, LinkError>,
    /// The answer to a three-field fork-choice update.
    pub fcu_v3: Result<ForkchoiceResult, LinkError>,
    /// The answer to a legacy payload retrieval.
    pub get_payload_v2: Result<PayloadEnvelopeView, LinkError>,
    /// The answer to a payload retrieval.
    pub get_payload_v3: Result<PayloadEnvelopeView, LinkError>,
    /// The answer to a new-payload submission.
    pub new_payload: Result<PayloadStatus, LinkError>,
}

/// The value of a latest-block answer.
pub open spec fn view_block_resp(r: Result<Option<BlockData>, LinkError>) -> Result<
    Option<BlockView>,
    LinkError,
> {
    match r {
        Ok(Some(b)) => Ok(Some(b@)),
        Ok(None) => Ok(None),
        Err(e) => Err(e),
    }
}

/// The value of a latest-header answer.
pub open spec fn view_header_resp(r: Result<Option<BlockHeader>, LinkError>) -> Result<
    Option<BlockHeaderView>,
    LinkError,
> {
    match r {
        Ok(Some(h)) => Ok(Some(h@)),
        Ok(None) => Ok(None),
        Err(e) => Err(e),
    }
}

/// The value of a payload-retrieval answer.
pub open spec fn view_envelope_resp(r: Result<PayloadEnvelope, LinkError>) -> Result<
    PayloadEnvelopeView,
    LinkError,
> {
    match r {
        Ok(p) => Ok(p@),
        Err(e) => Err(e),
    }
}

impl View for PeerScript {
    type V = PeerView;

    open spec fn view(&self) -> PeerView {
        PeerView {
            latest_block: view_block_resp(self.latest_block),
            latest_header: view_header_resp(self.latest_header),
            fcu_v2: self.fcu_v2,
            fcu_v3: self.fcu_v3,
            get_payload_v2: view_envelope_resp(self.get_payload_v2),
            get_payload_v3: view_envelope_resp(self.get_payload_v3),
            new_payload: self.new_payload,
        }
    }
}

/// The capability surface one run holds over its ordered peer list.
///
/// The world stays fixed over a call; only the trace grows. Which answer a
/// peer gives is the implementation's business — the scripted link below
/// answers from stored data, an unverified adapter may answer from a wire.
pub trait EngineLink: Sized {
    /// Per peer, the answer each call would receive.
    spec fn world(&self) -> Seq<PeerView>;

    /// The calls made so far, oldest first.
    spec fn calls(&self) -> Seq<CallTag>;

    /// The number of peers.
    fn num_peers(&self) -> (n: usize)
        ensures
            n == self.world().len(),
    ;

    /// Queries `peer` for its latest block, with full transaction bodies.
    fn latest_block(&mut self, peer: usize) -> (r: Result<Option<BlockData>, LinkError>)
        requires
            peer < old(self).world().len(),
        ensures
            final(self).world() == old(self).world(),
            final(self).calls() == old(self).calls().push(CallTag::LatestBlock { peer }),
            view_block_resp(r) == old(self).world()[peer as int].latest_block,
    ;

    /// Queries `peer` for its latest header.
    fn latest_header(&mut self, peer: usize) -> (r: Result<Option<BlockHeader>, LinkError>)
        requires
            peer < old(self).world().len(),
        ensures
            final(self).world() == old(self).world(),
            final(self).calls() == old(self).calls().push(CallTag::LatestHeader { peer }),
            view_header_resp(r) == old(self).world()[peer as int].latest_header,
    ;

    /// Sends `peer` a two-field fork-choice update.
    fn forkchoice_updated_v2(
        &mut self,
        peer: usize,
        state: ForkchoiceState,
        attrs: Option<&PayloadAttributes>,
    ) -> (r: Result<ForkchoiceResult, LinkError>)
        requires
            peer < old(self).world().len(),
        ensures
            final(self).world() == old(self).world(),
            final(self).calls() == old(self).calls().push(
                CallTag::ForkchoiceUpdatedV2 {
                    peer,
                    head: state.head_block_hash,
                    with_attributes: attrs is Some,
                },
            ),
            r == old(self).world()[peer as int].fcu_v2,
    ;

    /// Sends `peer` a three-field fork-choice update.
    fn forkchoice_updated_v3(
        &mut self,
        peer: usize,
        state: ForkchoiceState,
        attrs: Option<&PayloadAttributes>,
    ) -> (r: Result<ForkchoiceResult, LinkError>)
        requires
            peer < old(self).world().len(),
        ensures
            final(self).world() == old(self).world(),
            final(self).calls() == old(self).calls().push(
                CallTag::ForkchoiceUpdatedV3 {
                    peer,
                    head: state.head_block_hash,
                    with_attributes: attrs is Some,
                },
            ),
            r == old(self).world()[peer as int].fcu_v3,
    ;

    /// Retrieves from `peer` the payload built under `id`, legacy shape.
    fn get_payload_v2(&mut self, peer: usize, id: PayloadId) -> (r: Result<
        PayloadEnvelope,
        LinkError,
    >)
        requires
            peer < old(self).world().len(),
        ensures
            final(self).world() == old(self).world(),
            final(self).calls() == old(self).calls().push(CallTag::GetPayloadV2 { peer, id }),
            view_envelope_resp(r) == old(self).world()[peer as int].get_payload_v2,
    ;

    /// Retrieves from `peer` the payload built under `id`.
    fn get_payload_v3(&mut self, peer: usize, id: PayloadId) -> (r: Result<
        PayloadEnvelope,
        LinkError,
    >)
        requires
            peer < old(self).world().len(),
        ensures
            final(self).world() == old(self).world(),
            final(self).calls() == old(self).calls().push(CallTag::GetPayloadV3 { peer, id }),
            view_envelope_resp(r) == old(self).world()[peer as int].get_payload_v3,
    ;

    /// Submits `block` to `peer` as a new payload, alongside its parent
    /// beacon root.
    fn new_payload(
        &mut self,
        peer: usize,
        block: &BlockData,
        parent_beacon_block_root: Hash256,
    ) -> (r: Result<PayloadStatus, LinkError>)
        requires
            peer < old(self).world().len(),
        ensures
            final(self).world() == old(self).world(),
            final(self).calls() == old(self).calls().push(
                CallTag::NewPayload {
                    peer,
                    block_number: block.header.number,
                    parent_beacon_block_root,
                },
            ),
            r == old(self).world()[peer as int].new_payload,
    ;

    /// Gives the peer that was asked to assemble a payload time to finish
    /// the build before the payload is retrieved.
    fn pause_for_build(&mut self)
        ensures
            final(self).world() == old(self).world(),
            final(self).calls() == old(self).calls(),
    ;
}

/// A link whose peers answer from stored data: the remote side of every
/// call is a plain value chosen up front, so whole runs execute without a
/// network and their traces can be inspected.
#[derive(Debug)]
pub struct ScriptedLink {
    /// Per peer, the stored answers.
    pub script: Vec<PeerScript>,
    /// The calls made so far.
    pub trace: Vec<CallTag>,
}

impl ScriptedLink {
    /// A link over the given per-peer answers, with an empty trace.
    pub fn new(script: Vec<PeerScript>) -> (r: ScriptedLink)
        ensures
            r.world() == Seq::new(script@.len(), |i: int| script@[i]@),
            r.calls() == Seq::<CallTag>::empty(),
    {
        ScriptedLink { script, trace: Vec::new() }
    }

    /// The calls made so far, for inspection by a driver.
    pub fn trace(&self) -> (r: &Vec<CallTag>)
        ensures
            r@ == self.calls(),
    {
        &self.trace
    }
}

impl EngineLink for ScriptedLink {
    open spec fn world(&self) -> Seq<PeerView> {
        Seq::new(self.script@.len(), |i: int| self.script@[i]@)
    }

    open spec fn calls(&self) -> Seq<CallTag> {
        self.trace@
    }

    fn num_peers(&self) -> (n: usize)
        ensures
            n == self.world().len(),
    {
        self.script.len()
    }

    fn latest_block(&mut self, peer: usize) -> (r: Result<Option<BlockData>, LinkError>)
        ensures
            final(self).world() == old(self).world(),
            final(self).calls() == old(self).calls().push(CallTag::LatestBlock { peer }),
            view_block_resp(r) == old(self).world()[peer as int].latest_block,
    {
        self.trace.push(CallTag::LatestBlock { peer });
        match &self.script[peer].latest_block {
            Ok(Some(b)) => Ok(Some(b.clone())),
            Ok(None) => Ok(None),
            Err(e) => Err(*e),
        }
    }

    fn latest_header(&mut self, peer: usize) -> (r: Result<Option<BlockHeader>, LinkError>)
        ensures
            final(self).world() == old(self).world(),
            final(self).calls() == old(self).calls().push(CallTag::LatestHeader { peer }),
            view_header_resp(r) == old(self).world()[peer as int].latest_header,
    {
        self.trace.push(CallTag::LatestHeader { peer });
        match &self.script[peer].latest_header {
            Ok(Some(h)) => Ok(Some(h.clone())),
            Ok(None) => Ok(None),
            Err(e) => Err(*e),
        }
    }

    fn forkchoice_updated_v2(
        &mut self,
        peer: usize,
        state: ForkchoiceState,
        attrs: Option<&PayloadAttributes>,
    ) -> (r: Result<ForkchoiceResult, LinkError>)
        ensures
            final(self).world() == old(self).world(),
            final(self).calls() == old(self).calls().push(
                CallTag::ForkchoiceUpdatedV2 {
                    peer,
                    head: state.head_block_hash,
                    with_attributes: attrs is Some,
                },
            ),
            r == old(self).world()[peer as int].fcu_v2,
    {
        self.trace.push(
            CallTag::ForkchoiceUpdatedV2 {
                peer,
                head: state.head_block_hash,
                with_attributes: attrs.is_some(),
            },
        );
        match &self.script[peer].fcu_v2 {
            Ok(f) => Ok(*f),
            Err(e) => Err(*e),
        }
    }

    fn forkchoice_updated_v3(
        &mut self,
        peer: usize,
        state: ForkchoiceState,
        attrs: Option<&PayloadAttributes>,
    ) -> (r: Result<ForkchoiceResult, LinkError>)
        ensures
            final(self).world() == old(self).world(),
            final(self).calls() == old(self).calls().push(
                CallTag::ForkchoiceUpdatedV3 {
                    peer,
                    head: state.head_block_hash,
                    with_attributes: attrs is Some,
                },
            ),
            r == old(self).world()[peer as int].fcu_v3,
    {
        self.trace.push(
            CallTag::ForkchoiceUpdatedV3 {
                peer,
                head: state.head_block_hash,
                with_attributes: attrs.is_some(),
            },
        );
        match &self.script[peer].fcu_v3 {
            Ok(f) => Ok(*f),
            Err(e) => Err(*e),
        }
    }

    fn get_payload_v2(&mut self, peer: usize, id: PayloadId) -> (r: Result<
        PayloadEnvelope,
        LinkError,
    >)
        ensures
            final(self).world() == old(self).world(),
            final(self).calls() == old(self).calls().push(CallTag::GetPayloadV2 { peer, id }),
            view_envelope_resp(r) == old(self).world()[peer as int].get_payload_v2,
    {
        self.trace.push(CallTag::GetPayloadV2 { peer, id });
        match &self.script[peer].get_payload_v2 {
            Ok(p) => Ok(p.clone()),
            Err(e) => Err(*e),
        }
    }

    fn get_payload_v3(&mut self, peer: usize, id: PayloadId) -> (r: Result<
        PayloadEnvelope,
        LinkError,
    >)
        ensures
            final(self).world() == old(self).world(),
            final(self).calls() == old(self).calls().push(CallTag::GetPayloadV3 { peer, id }),
            view_envelope_resp(r) == old(self).world()[peer as int].get_payload_v3,
    {
        self.trace.push(CallTag::GetPayloadV3 { peer, id });
        match &self.script[peer].get_payload_v3 {
            Ok(p) => Ok(p.clone()),
            Err(e) => Err(*e),
        }
    }

    fn new_payload(
        &mut self,
        peer: usize,
        block: &BlockData,
        parent_beacon_block_root: Hash256,
    ) -> (r: Result<PayloadStatus, LinkError>)
        ensures
            final(self).world() == old(self).world(),
            final(self).calls() == old(self).calls().push(
                CallTag::NewPayload {
                    peer,
                    block_number: block.header.number,
                    parent_beacon_block_root,
                },
            ),
            r == old(self).world()[peer as int].new_payload,
    {
        self.trace.push(
            CallTag::NewPayload { peer, block_number: block.header.number, parent_beacon_block_root },
        );
        match &self.script[peer].new_payload {
            Ok(s) => Ok(*s),
            Err(e) => Err(*e),
        }
    }

    fn pause_for_build(&mut self)
        ensures
            final(self).world() == old(self).world(),
            final(self).calls() == old(self).calls(),
    {
    }
}

} // verus!
