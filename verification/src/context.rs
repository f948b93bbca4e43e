use vstd::prelude::*;

use crate::build_pipeline::{BuildEvent, BuildPipeline, BuildStep};
use crate::clock::{deadline_after, CLOCK_MILLIS_BOUND};
use crate::height::{gate_fires, HeightCursor};
use crate::store::{prune_model, ProposalStore, StoreModel};
use crate::types::{ConsensusMessage, ContextError, Transaction, Vote};
use crate::validate_pipeline::{BuilderReply, ValidatePipeline, ValidateStep};

verus! {

/// The "begin building" command to issue to the builder: the minted attempt
/// id, the absolute deadline, and the retrospective block reference the
/// builder executes against — a placeholder (number, hash) pair in this
/// version.
#[derive(Debug)]
pub struct BuildCommand {
    pub proposal_id: u64,
    pub deadline_epoch_millis: i64,
    pub retrospective_block: Option<(u64, u64)>,
}

/// The "begin validating" command to issue to the builder.
#[derive(Debug)]
pub struct ValidateCommand {
    pub proposal_id: u64,
    pub deadline_epoch_millis: i64,
}

/// Everything a driver needs to run one build attempt: the "start height"
/// command to issue first when the height gate fired, the begin-building command,
/// and the fresh streaming pipeline.
#[derive(Debug)]
pub struct BuildInitiation {
    pub start_height: Option<u64>,
    pub command: BuildCommand,
    pub pipeline: BuildPipeline,
}

/// Everything a driver needs to run one validate attempt.
#[derive(Debug)]
pub struct ValidateInitiation {
    pub start_height: Option<u64>,
    pub command: ValidateCommand,
    pub pipeline: ValidatePipeline,
}

/// The "decision reached" command to forward to the builder once the store
/// is pruned.
#[derive(Debug)]
pub struct DecisionAction {
    pub height: u64,
    pub proposal_id: u64,
}

fn copy_ids(v: &Vec<u64>) -> (r: Vec<u64>)
    ensures
        r@ == v@,
{
    let mut r: Vec<u64> = Vec::new();
    let mut i: usize = 0;
    while i < v.len()
        invariant
            0 <= i <= v.len(),
            r@ == v@.subrange(0, i as int),
        decreases v.len() - i,
    {
        r.push(v[i]);
        proof {
            assert(v@.subrange(0, i + 1 as int) =~= v@.subrange(0, i as int).push(v@[i as int]));
        }
        i += 1;
    }
    proof {
        assert(r@ =~= v@);
    }
    r
}

/// The consensus-engine-facing orchestrator: owns the proposal-id counter
/// and the height cursor, and holds the shared store of completed proposals.
/// Initiation calls mint commands and pipelines; the driver performs the
/// builder round-trips and feeds the replies back into the pipelines.
pub struct SequencerConsensusContext {
    validators: Vec<u64>,
    valid_proposals: ProposalStore,
    proposal_id: u64,
    current_height: HeightCursor,
}

impl SequencerConsensusContext {
    /// The fixed validator set.
    pub closed spec fn validators_view(&self) -> Seq<u64> {
        self.validators@
    }

    /// The store of completed proposals, as a map from (height, content id)
    /// to (transactions, proposal id).
    pub closed spec fn proposals(&self) -> StoreModel {
        self.valid_proposals@
    }

    /// The next proposal id to be minted; ids are never reused.
    pub closed spec fn next_proposal_id(&self) -> u64 {
        self.proposal_id
    }

    /// The height last started at the builder, if any.
    pub closed spec fn active_height(&self) -> Option<u64> {
        self.current_height@
    }

    /// Validity of the orchestrator's shared store.
    pub closed spec fn wf(&self) -> bool {
        self.valid_proposals.wf()
    }

    /// A fresh orchestrator over `num_validators` placeholder validator ids
    /// (0 up to num_validators - 1): empty store, id counter at zero, no
    /// height started yet.
    pub fn new(num_validators: u64) -> (ctx: Self)
        ensures
            ctx.wf(),
            ctx.validators_view() == Seq::new(num_validators as nat, |i: int| i as u64),
            ctx.proposals() == StoreModel::empty(),
            ctx.next_proposal_id() == 0,
            ctx.active_height() is None,
    {
        let mut validators: Vec<u64> = Vec::new();
        let mut i: u64 = 0;
        while i < num_validators
            invariant
                0 <= i <= num_validators,
                validators@ == Seq::new(i as nat, |j: int| j as u64),
            decreases num_validators - i,
        {
            validators.push(i);
            proof {
                assert(Seq::new((i + 1) as nat, |j: int| j as u64) =~= Seq::new(
                    i as nat,
                    |j: int| j as u64,
                ).push(i as u64));
            }
            i += 1;
        }
        SequencerConsensusContext {
            validators,
            valid_proposals: ProposalStore::new(),
            proposal_id: 0,
            current_height: HeightCursor::new(),
        }
    }

    /// The height gate. The builder must be told when consensus begins work
    /// on a new height; consensus works on one height until done and never
    /// returns to an old one. When it fires this hands back the
    /// "start height" command, which must complete at the builder before any
    /// further work — its failure is fatal, as the builder is assumed ready
    /// to start the next height. At the already-active height nothing is
    /// issued.
    pub fn maybe_start_height(&mut self, height: u64) -> (cmd: Option<u64>)
        requires
            old(self).wf(),
        ensures
            final(self).wf(),
            cmd == (if gate_fires(old(self).active_height(), height) {
                Some(height)
            } else {
                None::<u64>
            }),
            final(self).active_height() == Some(height),
            final(self).proposals() == old(self).proposals(),
            final(self).validators_view() == old(self).validators_view(),
            final(self).next_proposal_id() == old(self).next_proposal_id(),
    {
        if self.current_height.advance(height) {
            Some(height)
        } else {
            None
        }
    }

    /// Mints the id and assembles the commands and the pipeline for one
    /// build attempt at `height`, against an already-computed absolute
    /// deadline. The caller must run the start-height command (when present)
    /// and then the begin-building command to completion at the builder —
    /// failure of either is fatal — and only then drive the pipeline; the
    /// call itself never blocks on the pipeline.
    pub fn initiate_build(&mut self, height: u64, deadline_epoch_millis: i64) -> (r:
        BuildInitiation)
        requires
            old(self).wf(),
            old(self).next_proposal_id() < u64::MAX,
        ensures
            final(self).wf(),
            r.command.proposal_id == old(self).next_proposal_id(),
            r.command.deadline_epoch_millis == deadline_epoch_millis,
            r.command.retrospective_block == Some((0u64, 0u64)),
            r.pipeline.height == height,
            r.pipeline.proposal_id == old(self).next_proposal_id(),
            r.pipeline.streamed() == Seq::<Transaction>::empty(),
            r.start_height == (if gate_fires(old(self).active_height(), height) {
                Some(height)
            } else {
                None::<u64>
            }),
            final(self).next_proposal_id() == old(self).next_proposal_id() + 1,
            final(self).active_height() == Some(height),
            final(self).proposals() == old(self).proposals(),
            final(self).validators_view() == old(self).validators_view(),
    {
        let proposal_id = self.proposal_id;
        self.proposal_id = self.proposal_id + 1;
        let start_height = self.maybe_start_height(height);
        let command = BuildCommand {
            proposal_id,
            deadline_epoch_millis,
            retrospective_block: Some((0, 0)),
        };
        let pipeline = BuildPipeline::new(height, proposal_id);
        BuildInitiation { start_height, command, pipeline }
    }

    /// Initiates one build attempt with a relative timeout, as the consensus
    /// engine requests it: turns the timeout into an absolute deadline past
    /// the current time and initiates the attempt. `DeadlineOverflow` — the
    /// orchestrator untouched — is reported only when no representable
    /// deadline that far from now exists; for every timeout that cannot
    /// overflow from any clock value, initiation is owed and the deadline
    /// handed to the builder lies at least the timeout past the epoch and at
    /// most the timeout past the last representable instant.
    pub fn build_proposal(&mut self, height: u64, timeout_ms: u64) -> (r: Result<
        BuildInitiation,
        ContextError,
    >)
        requires
            old(self).wf(),
            old(self).next_proposal_id() < u64::MAX,
        ensures
            final(self).wf(),
            match r {
                Ok(init) => {
                    &&& init.command.proposal_id == old(self).next_proposal_id()
                    &&& init.command.retrospective_block == Some((0u64, 0u64))
                    &&& timeout_ms <= init.command.deadline_epoch_millis <= CLOCK_MILLIS_BOUND
                        + timeout_ms
                    &&& init.pipeline.height == height
                    &&& init.pipeline.proposal_id == old(self).next_proposal_id()
                    &&& init.pipeline.streamed() == Seq::<Transaction>::empty()
                    &&& init.start_height == (if gate_fires(old(self).active_height(), height) {
                        Some(height)
                    } else {
                        None::<u64>
                    })
                    &&& final(self).next_proposal_id() == old(self).next_proposal_id() + 1
                    &&& final(self).active_height() == Some(height)
                    &&& final(self).proposals() == old(self).proposals()
                    &&& final(self).validators_view() == old(self).validators_view()
                },
                Err(e) => {
                    &&& e == ContextError::DeadlineOverflow
                    &&& *final(self) == *old(self)
                },
            },
            timeout_ms + CLOCK_MILLIS_BOUND <= i64::MAX ==> r is Ok,
            timeout_ms > i64::MAX ==> r is Err,
    {
        match deadline_after(timeout_ms) {
            Some(deadline_epoch_millis) => Ok(self.initiate_build(height, deadline_epoch_millis)),
            None => Err(ContextError::DeadlineOverflow),
        }
    }

    /// Mints the id and assembles the commands and the pipeline for one
    /// validate attempt at `height`, against an already-computed absolute
    /// deadline. The caller runs the start-height command (when present) and
    /// the begin-validating command at the builder, then drives the pipeline
    /// under its timeout: on expiry the pipeline is abandoned and the
    /// completion handle is simply never resolved.
    pub fn initiate_validate(&mut self, height: u64, deadline_epoch_millis: i64) -> (r:
        ValidateInitiation)
        requires
            old(self).wf(),
            old(self).next_proposal_id() < u64::MAX,
        ensures
            final(self).wf(),
            r.command.proposal_id == old(self).next_proposal_id(),
            r.command.deadline_epoch_millis == deadline_epoch_millis,
            r.pipeline.height == height,
            r.pipeline.proposal_id == old(self).next_proposal_id(),
            r.pipeline.forwarded() == Seq::<Transaction>::empty(),
            r.start_height == (if gate_fires(old(self).active_height(), height) {
                Some(height)
            } else {
                None::<u64>
            }),
            final(self).next_proposal_id() == old(self).next_proposal_id() + 1,
            final(self).active_height() == Some(height),
            final(self).proposals() == old(self).proposals(),
            final(self).validators_view() == old(self).validators_view(),
    {
        let proposal_id = self.proposal_id;
        self.proposal_id = self.proposal_id + 1;
        let start_height = self.maybe_start_height(height);
        let command = ValidateCommand { proposal_id, deadline_epoch_millis };
        let pipeline = ValidatePipeline::new(height, proposal_id);
        ValidateInitiation { start_height, command, pipeline }
    }

    /// Initiates one validate attempt with a relative timeout, mirroring
    /// `build_proposal`: initiation is owed for every timeout that cannot
    /// overflow from any clock value, and the deadline handed to the builder
    /// is bounded the same way.
    pub fn validate_proposal(&mut self, height: u64, timeout_ms: u64) -> (r: Result<
        ValidateInitiation,
        ContextError,
    >)
        requires
            old(self).wf(),
            old(self).next_proposal_id() < u64::MAX,
        ensures
            final(self).wf(),
            match r {
                Ok(init) => {
                    &&& init.command.proposal_id == old(self).next_proposal_id()
                    &&& timeout_ms <= init.command.deadline_epoch_millis <= CLOCK_MILLIS_BOUND
                        + timeout_ms
                    &&& init.pipeline.height == height
                    &&& init.pipeline.proposal_id == old(self).next_proposal_id()
                    &&& init.pipeline.forwarded() == Seq::<Transaction>::empty()
                    &&& init.start_height == (if gate_fires(old(self).active_height(), height) {
                        Some(height)
                    } else {
                        None::<u64>
                    })
                    &&& final(self).next_proposal_id() == old(self).next_proposal_id() + 1
                    &&& final(self).active_height() == Some(height)
                    &&& final(self).proposals() == old(self).proposals()
                    &&& final(self).validators_view() == old(self).validators_view()
                },
                Err(e) => {
                    &&& e == ContextError::DeadlineOverflow
                    &&& *final(self) == *old(self)
                },
            },
            timeout_ms + CLOCK_MILLIS_BOUND <= i64::MAX ==> r is Ok,
            timeout_ms > i64::MAX ==> r is Err,
    {
        match deadline_after(timeout_ms) {
            Some(deadline_epoch_millis) => Ok(
                self.initiate_validate(height, deadline_epoch_millis),
            ),
            None => Err(ContextError::DeadlineOverflow),
        }
    }

    /// Hands back the stored transaction sequence for previously completed
    /// content, for the caller to broadcast anew. The orchestrator is only
    /// ever asked to re-propose content it completed itself, so a miss
    /// (wrong height, unknown content id) is an invariant violation,
    /// reported as `ProposalNotFound`.
    pub fn repropose(&self, content_id: u64, height: u64) -> (r: Result<
        Vec<Transaction>,
        ContextError,
    >)
        requires
            self.wf(),
        ensures
            match r {
                Ok(txs) => self.proposals().dom().contains((height, content_id)) && txs@
                    == self.proposals()[(height, content_id)].0,
                Err(e) => !self.proposals().dom().contains((height, content_id)) && e == (
                ContextError::ProposalNotFound { height, content_id }),
            },
    {
        match self.valid_proposals.get(height, content_id) {
            Some(rec) => Ok(rec.transactions),
            None => Err(ContextError::ProposalNotFound { height, content_id }),
        }
    }

    /// Finalizes a decision backed by a non-empty set of commit votes that
    /// all carry the decided height: looks up the proposal id committed for
    /// (height, content id), prunes every stored height up to the decided
    /// one, and hands back the "decision reached" command to forward to the
    /// builder. A missing record is an invariant violation: nothing is
    /// pruned and `ProposalNotFound` is reported.
    pub fn decision_reached(&mut self, content_id: u64, votes: &Vec<Vote>) -> (r: Result<
        DecisionAction,
        ContextError,
    >)
        requires
            old(self).wf(),
            votes@.len() > 0,
            forall|i: int| 0 <= i < votes@.len() ==> #[trigger] votes@[i].height == votes@[0].height,
        ensures
            final(self).wf(),
            ({
                let height = votes@[0].height;
                match r {
                    Ok(action) => {
                        &&& old(self).proposals().dom().contains((height, content_id))
                        &&& action.height == height
                        &&& action.proposal_id == old(self).proposals()[(height, content_id)].1
                        &&& final(self).proposals() == prune_model(old(self).proposals(), height)
                    },
                    Err(e) => {
                        &&& !old(self).proposals().dom().contains((height, content_id))
                        &&& e == (ContextError::ProposalNotFound { height, content_id })
                        &&& final(self).proposals() == old(self).proposals()
                    },
                }
            }),
            final(self).validators_view() == old(self).validators_view(),
            final(self).next_proposal_id() == old(self).next_proposal_id(),
            final(self).active_height() == old(self).active_height(),
    {
        let height = votes[0].height;
        match self.valid_proposals.get(height, content_id) {
            Some(rec) => {
                self.valid_proposals.prune_up_to(height);
                Ok(DecisionAction { height, proposal_id: rec.proposal_id })
            },
            None => Err(ContextError::ProposalNotFound { height, content_id }),
        }
    }

    /// Feeds one builder reply into a build pipeline running against this
    /// orchestrator's shared store. In a concurrent deployment every spawned
    /// pipeline holds a handle to the same store behind a lock held only for
    /// the single insert; a driver may equally serialize those accesses
    /// through the orchestrator, as this method does.
    pub fn apply_build_event(&mut self, pipeline: &mut BuildPipeline, event: BuildEvent) -> (step:
        BuildStep)
        requires
            old(self).wf(),
        ensures
            final(self).wf(),
            final(pipeline).height == old(pipeline).height,
            final(pipeline).proposal_id == old(pipeline).proposal_id,
            match event {
                BuildEvent::Chunk(txs) => {
                    &&& step is Continue
                    &&& final(pipeline).streamed() == old(pipeline).streamed() + txs@
                    &&& final(self).proposals() == old(self).proposals()
                },
                BuildEvent::Finished(commitment) => {
                    &&& step == BuildStep::Signal(commitment)
                    &&& final(self).proposals() == old(self).proposals().insert(
                        (old(pipeline).height, commitment),
                        (old(pipeline).streamed(), old(pipeline).proposal_id),
                    )
                    &&& final(pipeline).streamed() == old(pipeline).streamed()
                },
                BuildEvent::ClientError => {
                    &&& step is Abort
                    &&& final(self).proposals() == old(self).proposals()
                    &&& final(pipeline).streamed() == old(pipeline).streamed()
                },
            },
            final(self).validators_view() == old(self).validators_view(),
            final(self).next_proposal_id() == old(self).next_proposal_id(),
            final(self).active_height() == old(self).active_height(),
    {
        pipeline.on_event(&mut self.valid_proposals, event)
    }

    /// Finishes a validate pipeline against this orchestrator's shared
    /// store, once its inbound stream has closed and the builder answered
    /// the final "finish" signal with `reply`. Only a "finished" reply
    /// stores the record and asks for a completion signal.
    pub fn apply_validate_close(&mut self, pipeline: ValidatePipeline, reply: BuilderReply) -> (step:
        ValidateStep)
        requires
            old(self).wf(),
        ensures
            final(self).wf(),
            step is Signal <==> reply is Finished,
            match reply {
                BuilderReply::Finished(commitment) => {
                    &&& step == ValidateStep::Signal(commitment)
                    &&& final(self).proposals() == old(self).proposals().insert(
                        (pipeline.height, commitment),
                        (pipeline.forwarded(), pipeline.proposal_id),
                    )
                },
                BuilderReply::Processing => {
                    &&& step is Fatal
                    &&& final(self).proposals() == old(self).proposals()
                },
                BuilderReply::Invalid => {
                    &&& step is Rejected
                    &&& final(self).proposals() == old(self).proposals()
                },
            },
            final(self).validators_view() == old(self).validators_view(),
            final(self).next_proposal_id() == old(self).next_proposal_id(),
            final(self).active_height() == old(self).active_height(),
    {
        pipeline.on_stream_closed(&mut self.valid_proposals, reply)
    }

    /// The validator set for a height: a placeholder fixed-order rule, the
    /// same sequence at every height, with no rotation.
    pub fn validators(&self, _height: u64) -> (r: Vec<u64>)
        ensures
            r@ == self.validators_view(),
    {
        copy_ids(&self.validators)
    }

    /// Placeholder leader selection: the first validator proposes at every
    /// height and round.
    pub fn proposer(&self, _height: u64, _round: u32) -> (r: u64)
        requires
            self.validators_view().len() > 0,
        ensures
            r == self.validators_view()[0],
    {
        self.validators[0]
    }

    /// Broadcast stub: acknowledges the intent and does nothing else;
    /// network delivery is an external collaborator's seam.
    pub fn broadcast(&mut self, _message: ConsensusMessage) -> (r: Result<(), ContextError>)
        requires
            old(self).wf(),
        ensures
            final(self).wf(),
            r is Ok,
            *final(self) == *old(self),
    {
        Ok(())
    }
}

} // verus!
