//! The run context: the mutable state one orchestration run threads through
//! its steps, and its mathematical view.

use vstd::prelude::*;

use crate::table::KeyedList;
use crate::types::{BlockInfo, ForkchoiceState, Hash256, PayloadAttributes, PayloadAttributesView,
    PayloadId};

verus! {

/// The state shared across one orchestration run. Each step reads fields an
/// earlier step wrote and writes fields a later step will read; the context
/// is the only channel of communication between steps.
#[derive(Debug)]
pub struct Environment {
    /// The block the run currently agrees on; absent until first selected.
    pub latest_block_info: Option<BlockInfo>,
    /// The most recent accepted block's timestamp.
    pub latest_header_time: u64,
    /// The fixed delta applied to produce the next block timestamp.
    pub block_timestamp_increment: u64,
    /// Payload attributes staged per target block number.
    pub payload_attributes: KeyedList<PayloadAttributes>,
    /// The peer index chosen by the most recent producer selection.
    pub last_producer_idx: Option<usize>,
    /// The identifier of the payload currently being built.
    pub next_payload_id: Option<PayloadId>,
    /// Payload identifiers recorded per block number.
    pub payload_id_history: KeyedList<PayloadId>,
    /// The most recently retrieved built payload, as an attributes view.
    pub latest_payload_built: Option<PayloadAttributes>,
    /// The most recently successfully broadcast payload.
    pub latest_payload_executed: Option<PayloadAttributes>,
    /// The fork-choice state most recently agreed.
    pub latest_fork_choice_state: ForkchoiceState,
}

/// The mathematical value of an [`Environment`].
pub struct EnvView {
    /// The block the run currently agrees on; absent until first selected.
    pub latest_block_info: Option<BlockInfo>,
    /// The most recent accepted block's timestamp.
    pub latest_header_time: u64,
    /// The fixed delta applied to produce the next block timestamp.
    pub block_timestamp_increment: u64,
    /// Payload attributes staged per target block number.
    pub payload_attributes: Map<u64, PayloadAttributesView>,
    /// The peer index chosen by the most recent producer selection.
    pub last_producer_idx: Option<usize>,
    /// The identifier of the payload currently being built.
    pub next_payload_id: Option<PayloadId>,
    /// Payload identifiers recorded per block number.
    pub payload_id_history: Map<u64, PayloadId>,
    /// The most recently retrieved built payload, as an attributes view.
    pub latest_payload_built: Option<PayloadAttributesView>,
    /// The most recently successfully broadcast payload.
    pub latest_payload_executed: Option<PayloadAttributesView>,
    /// The fork-choice state most recently agreed.
    pub latest_fork_choice_state: ForkchoiceState,
}

impl View for Environment {
    type V = EnvView;

    open spec fn view(&self) -> EnvView {
        EnvView {
            latest_block_info: self.latest_block_info,
            latest_header_time: self.latest_header_time,
            block_timestamp_increment: self.block_timestamp_increment,
            payload_attributes: self.payload_attributes@,
            last_producer_idx: self.last_producer_idx,
            next_payload_id: self.next_payload_id,
            payload_id_history: self.payload_id_history@,
            latest_payload_built: match self.latest_payload_built {
                Some(ref p) => Some(p@),
                None => None,
            },
            latest_payload_executed: match self.latest_payload_executed {
                Some(ref p) => Some(p@),
                None => None,
            },
            latest_fork_choice_state: self.latest_fork_choice_state,
        }
    }
}

impl Environment {
    /// A fresh context: nothing agreed, nothing staged, all markers zero.
    pub fn new() -> (r: Environment)
        ensures
            r@ == EnvView::initial(),
    {
        let r = Environment {
            latest_block_info: None,
            latest_header_time: 0,
            block_timestamp_increment: 0,
            payload_attributes: KeyedList::new(),
            last_producer_idx: None,
            next_payload_id: None,
            payload_id_history: KeyedList::new(),
            latest_payload_built: None,
            latest_payload_executed: None,
            latest_fork_choice_state: ForkchoiceState::zero(),
        };
        proof {
            assert(r@ =~= EnvView::initial());
        }
        r
    }
}

impl EnvView {
    /// The view of a fresh context.
    pub open spec fn initial() -> EnvView {
        EnvView {
            latest_block_info: None,
            latest_header_time: 0,
            block_timestamp_increment: 0,
            payload_attributes: Map::empty(),
            last_producer_idx: None,
            next_payload_id: None,
            payload_id_history: Map::empty(),
            latest_payload_built: None,
            latest_payload_executed: None,
            latest_fork_choice_state: ForkchoiceState::spec_zero(),
        }
    }

    /// This context with the producer index recorded.
    pub open spec fn with_last_producer(self, idx: usize) -> EnvView {
        EnvView { last_producer_idx: Some(idx), ..self }
    }

    /// This context with payload attributes staged under `key`.
    pub open spec fn with_attributes_staged(self, key: u64, a: PayloadAttributesView) -> EnvView {
        EnvView { payload_attributes: self.payload_attributes.insert(key, a), ..self }
    }

    /// This context with the identifier of the payload now being built.
    pub open spec fn with_next_payload_id(self, id: PayloadId) -> EnvView {
        EnvView { next_payload_id: Some(id), ..self }
    }

    /// This context with `id` recorded in the history under `key` and the
    /// retrieved payload staged as the latest built one.
    pub open spec fn with_payload_retrieved(
        self,
        key: u64,
        id: PayloadId,
        built: PayloadAttributesView,
    ) -> EnvView {
        EnvView {
            payload_id_history: self.payload_id_history.insert(key, id),
            latest_payload_built: Some(built),
            ..self
        }
    }

    /// This context after a peer's header passed the acceptance checks:
    /// the header time advances to the built payload's timestamp, and the
    /// fork-choice head and the agreed block follow the peer's header.
    pub open spec fn with_acceptance(self, time: u64, hash: Hash256, number: u64) -> EnvView {
        EnvView {
            latest_header_time: time,
            latest_fork_choice_state: ForkchoiceState {
                head_block_hash: hash,
                ..self.latest_fork_choice_state
            },
            latest_block_info: Some(BlockInfo { hash, number }),
            ..self
        }
    }

    /// This context with the broadcast payload recorded as executed.
    pub open spec fn with_payload_executed(self, p: PayloadAttributesView) -> EnvView {
        EnvView { latest_payload_executed: Some(p), ..self }
    }
}

} // verus!
