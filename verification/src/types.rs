use vstd::prelude::*;

verus! {

/// A transaction as the orchestrator sees it: an opaque payload. The
/// orchestrator never inspects a transaction; it only stores and replays
/// transactions in the order the builder or the network produced them.
#[derive(Clone, Copy, PartialEq, Eq, Structural, Debug)]
pub struct Transaction {
    pub payload: u64,
}

/// A single commit vote backing a decision. Every vote handed to
/// `decision_reached` must carry the decided height.
#[derive(Clone, Copy, PartialEq, Eq, Structural, Debug)]
pub struct Vote {
    pub height: u64,
    pub voter: u64,
}

/// A message handed to `broadcast`. Delivery is an external concern; the
/// orchestrator only acknowledges the intent.
#[derive(Clone, Copy, PartialEq, Eq, Structural, Debug)]
pub struct ConsensusMessage {
    pub height: u64,
    pub payload: u64,
}

/// Why an orchestrator call could not produce a result.
#[derive(Clone, Copy, PartialEq, Eq, Structural, Debug)]
pub enum ContextError {
    /// No stored proposal exists for the given height and content id. The
    /// orchestrator is only ever asked about content it completed itself, so
    /// a miss is an invariant violation on the caller's side.
    ProposalNotFound { height: u64, content_id: u64 },
    /// The requested timeout could not be turned into an absolute deadline.
    DeadlineOverflow,
}

} // verus!
