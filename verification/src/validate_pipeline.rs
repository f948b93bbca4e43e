use vstd::prelude::*;

use crate::build_pipeline::append_transactions;
use crate::store::ProposalStore;
use crate::types::Transaction;

verus! {

/// The builder's reply to one content message of a validation.
#[derive(Clone, Copy, PartialEq, Eq, Structural, Debug)]
pub enum BuilderReply {
    /// Still processing: more content may follow.
    Processing,
    /// The proposal is complete, with its content commitment.
    Finished(u64),
    /// The builder rejected the proposal.
    Invalid,
}

/// What the driver of a validate pipeline must do after a step.
#[derive(Clone, Copy, PartialEq, Eq, Structural, Debug)]
pub enum ValidateStep {
    /// Keep consuming the inbound stream.
    Continue,
    /// The record is stored; resolve the completion handle with this content
    /// id.
    Signal(u64),
    /// The builder rejected the proposal: exit cleanly, the completion handle
    /// is never resolved.
    Rejected,
    /// The builder broke the protocol: a fatal invariant violation.
    Fatal,
}

/// The streaming half of proposal validation: forwards inbound transaction
/// chunks to the builder, and once the stream has closed and the builder
/// confirms completion, registers the validated proposal in the shared store
/// before asking for the completion signal.
#[derive(Debug)]
pub struct ValidatePipeline {
    /// The height the proposal is validated for.
    pub height: u64,
    /// The id minted for this validate attempt.
    pub proposal_id: u64,
    /// The transactions accumulated so far, in order.
    pub content: Vec<Transaction>,
}

impl ValidatePipeline {
    /// The transactions forwarded to the builder so far, in stream order.
    pub open spec fn forwarded(&self) -> Seq<Transaction> {
        self.content@
    }

    /// A fresh pipeline for one validate attempt: nothing forwarded yet.
    pub fn new(height: u64, proposal_id: u64) -> (p: Self)
        ensures
            p.height == height,
            p.proposal_id == proposal_id,
            p.forwarded() == Seq::<Transaction>::empty(),
    {
        ValidatePipeline { height, proposal_id, content: Vec::new() }
    }

    /// Advances the pipeline after one inbound chunk was forwarded to the
    /// builder, which answered `reply`. While the stream is open the only
    /// legitimate reply is "still processing": a premature "finished" is a
    /// protocol violation (fatal), and a rejection aborts with no result.
    /// No step of this phase ever asks for a completion signal.
    pub fn on_chunk(&mut self, txs: Vec<Transaction>, reply: BuilderReply) -> (step: ValidateStep)
        ensures
            final(self).height == old(self).height,
            final(self).proposal_id == old(self).proposal_id,
            !(step is Signal),
            match reply {
                BuilderReply::Processing => {
                    &&& step is Continue
                    &&& final(self).forwarded() == old(self).forwarded() + txs@
                },
                BuilderReply::Finished(_) => {
                    &&& step is Fatal
                    &&& final(self).forwarded() == old(self).forwarded()
                },
                BuilderReply::Invalid => {
                    &&& step is Rejected
                    &&& final(self).forwarded() == old(self).forwarded()
                },
            },
    {
        match reply {
            BuilderReply::Processing => {
                append_transactions(&mut self.content, &txs);
                ValidateStep::Continue
            },
            BuilderReply::Finished(_) => ValidateStep::Fatal,
            BuilderReply::Invalid => ValidateStep::Rejected,
        }
    }

    /// Finishes the pipeline once the inbound stream has closed and the final
    /// "finish" signal was sent to the builder, which answered `reply`. Only
    /// a "finished" reply stores the validated record — strictly before the
    /// returned step asks the driver to signal completion — and only then is
    /// a completion ever signaled: any other reply leaves the store untouched
    /// and resolves nothing, a premature "still processing" being fatal and a
    /// rejection a clean exit.
    pub fn on_stream_closed(self, store: &mut ProposalStore, reply: BuilderReply) -> (step:
        ValidateStep)
        requires
            old(store).wf(),
        ensures
            final(store).wf(),
            step is Signal <==> reply is Finished,
            match reply {
                BuilderReply::Finished(commitment) => {
                    &&& step == ValidateStep::Signal(commitment)
                    &&& final(store)@ == old(store)@.insert(
                        (self.height, commitment),
                        (self.forwarded(), self.proposal_id),
                    )
                },
                BuilderReply::Processing => {
                    &&& step is Fatal
                    &&& final(store)@ == old(store)@
                },
                BuilderReply::Invalid => {
                    &&& step is Rejected
                    &&& final(store)@ == old(store)@
                },
            },
    {
        match reply {
            BuilderReply::Finished(commitment) => {
                store.insert(self.height, commitment, self.content, self.proposal_id);
                ValidateStep::Signal(commitment)
            },
            BuilderReply::Processing => ValidateStep::Fatal,
            BuilderReply::Invalid => ValidateStep::Rejected,
        }
    }
}

} // verus!
