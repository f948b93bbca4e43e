use vstd::prelude::*;

use crate::store::{copy_transactions, ProposalStore};
use crate::types::Transaction;

verus! {

/// What the builder answered one content poll with.
pub enum BuildEvent {
    /// A chunk of transactions; chunk order is the canonical transaction
    /// order of the finished proposal.
    Chunk(Vec<Transaction>),
    /// The terminal reply: the content commitment of the finished proposal.
    Finished(u64),
    /// The builder client failed mid-poll.
    ClientError,
}

/// What the driver of a build pipeline must do after a step.
#[derive(Clone, Copy, PartialEq, Eq, Structural, Debug)]
pub enum BuildStep {
    /// Poll the builder again.
    Continue,
    /// The record is stored; resolve the completion handle with this content
    /// id.
    Signal(u64),
    /// Abandon the pipeline without resolving the completion handle: the
    /// caller sees permanent silence.
    Abort,
}

/// The streaming half of proposal construction: accumulates the content
/// chunks the builder hands out, and on the terminal reply registers the
/// finished proposal in the shared store before asking for the completion
/// signal.
#[derive(Debug)]
pub struct BuildPipeline {
    /// The height the proposal is built for.
    pub height: u64,
    /// The id minted for this build attempt.
    pub proposal_id: u64,
    /// The transactions accumulated so far, in order.
    pub content: Vec<Transaction>,
}

pub(crate) fn append_transactions(dst: &mut Vec<Transaction>, src: &Vec<Transaction>)
    ensures
        final(dst)@ == old(dst)@ + src@,
{
    let mut i: usize = 0;
    while i < src.len()
        invariant
            0 <= i <= src.len(),
            dst@ == old(dst)@ + src@.subrange(0, i as int),
        decreases src.len() - i,
    {
        dst.push(src[i]);
        proof {
            assert(src@.subrange(0, i + 1 as int) =~= src@.subrange(0, i as int).push(
                src@[i as int],
            ));
        }
        i += 1;
    }
    proof {
        assert(old(dst)@ + src@.subrange(0, src@.len() as int) =~= old(dst)@ + src@);
    }
}

impl BuildPipeline {
    /// The transactions streamed out of the builder so far, in order.
    pub open spec fn streamed(&self) -> Seq<Transaction> {
        self.content@
    }

    /// A fresh pipeline for one build attempt: nothing streamed yet.
    pub fn new(height: u64, proposal_id: u64) -> (p: Self)
        ensures
            p.height == height,
            p.proposal_id == proposal_id,
            p.streamed() == Seq::<Transaction>::empty(),
    {
        BuildPipeline { height, proposal_id, content: Vec::new() }
    }

    /// Advances the pipeline on one builder reply. A chunk is appended to the
    /// streamed content; the terminal reply writes the finished record into
    /// the store strictly before the returned step asks the driver to signal
    /// completion, so a concurrent repropose can never observe a signaled
    /// content id that the store does not yet hold; a client error abandons
    /// the pipeline with the store untouched.
    pub fn on_event(&mut self, store: &mut ProposalStore, event: BuildEvent) -> (step: BuildStep)
        requires
            old(store).wf(),
        ensures
            final(store).wf(),
            final(self).height == old(self).height,
            final(self).proposal_id == old(self).proposal_id,
            match event {
                BuildEvent::Chunk(txs) => {
                    &&& step is Continue
                    &&& final(self).streamed() == old(self).streamed() + txs@
                    &&& final(store)@ == old(store)@
                },
                BuildEvent::Finished(commitment) => {
                    &&& step == BuildStep::Signal(commitment)
                    &&& final(store)@ == old(store)@.insert(
                        (old(self).height, commitment),
                        (old(self).streamed(), old(self).proposal_id),
                    )
                    &&& final(self).streamed() == old(self).streamed()
                },
                BuildEvent::ClientError => {
                    &&& step is Abort
                    &&& final(store)@ == old(store)@
                    &&& final(self).streamed() == old(self).streamed()
                },
            },
    {
        match event {
            BuildEvent::Chunk(txs) => {
                append_transactions(&mut self.content, &txs);
                BuildStep::Continue
            },
            BuildEvent::Finished(commitment) => {
                let transactions = copy_transactions(&self.content);
                store.insert(self.height, commitment, transactions, self.proposal_id);
                BuildStep::Signal(commitment)
            },
            BuildEvent::ClientError => BuildStep::Abort,
        }
    }
}

} // verus!
