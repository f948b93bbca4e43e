use consensus_orchestrator::context::SequencerConsensusContext;
use consensus_orchestrator::types::{ConsensusMessage, ContextError};

#[test]
fn start_height_fires_once_per_distinct_height() {
    let mut ctx = SequencerConsensusContext::new(4);
    let first = ctx.build_proposal(5, 1_000).unwrap();
    assert_eq!(first.start_height, Some(5));
    let second = ctx.validate_proposal(5, 1_000).unwrap();
    assert_eq!(second.start_height, None);
    let third = ctx.build_proposal(6, 1_000).unwrap();
    assert_eq!(third.start_height, Some(6));
    let fourth = ctx.validate_proposal(6, 1_000).unwrap();
    assert_eq!(fourth.start_height, None);
}

#[test]
fn maybe_start_height_is_idempotent() {
    let mut ctx = SequencerConsensusContext::new(1);
    assert_eq!(ctx.maybe_start_height(7), Some(7));
    assert_eq!(ctx.maybe_start_height(7), None);
    assert_eq!(ctx.maybe_start_height(8), Some(8));
}

#[test]
fn proposal_ids_are_minted_in_order() {
    let mut ctx = SequencerConsensusContext::new(1);
    let a = ctx.build_proposal(1, 500).unwrap();
    let b = ctx.validate_proposal(1, 500).unwrap();
    let c = ctx.build_proposal(2, 500).unwrap();
    assert_eq!(a.command.proposal_id, 0);
    assert_eq!(b.command.proposal_id, 1);
    assert_eq!(c.command.proposal_id, 2);
    assert_eq!(c.pipeline.proposal_id, 2);
}

#[test]
fn build_command_carries_the_placeholder_retrospective_block() {
    let mut ctx = SequencerConsensusContext::new(1);
    let init = ctx.build_proposal(1, 500).unwrap();
    assert_eq!(init.command.retrospective_block, Some((0, 0)));
}

#[test]
fn validators_are_fixed_across_heights() {
    let ctx = SequencerConsensusContext::new(3);
    assert_eq!(ctx.validators(0), vec![0, 1, 2]);
    assert_eq!(ctx.validators(99), vec![0, 1, 2]);
}

#[test]
fn an_orchestrator_may_have_no_validators() {
    let ctx = SequencerConsensusContext::new(0);
    assert_eq!(ctx.validators(1), Vec::<u64>::new());
}

#[test]
fn proposer_is_always_the_first_validator() {
    let ctx = SequencerConsensusContext::new(3);
    assert_eq!(ctx.proposer(5, 0), 0);
    assert_eq!(ctx.proposer(9, 4), 0);
}

#[test]
fn broadcast_acknowledges_without_effect() {
    let mut ctx = SequencerConsensusContext::new(1);
    assert!(ctx.broadcast(ConsensusMessage { height: 5, payload: 17 }).is_ok());
    assert_eq!(ctx.validators(5), vec![0]);
}

#[test]
fn oversized_timeout_is_rejected_as_deadline_overflow() {
    let mut ctx = SequencerConsensusContext::new(1);
    assert_eq!(ctx.build_proposal(5, u64::MAX).unwrap_err(), ContextError::DeadlineOverflow);
    assert_eq!(ctx.validate_proposal(5, u64::MAX).unwrap_err(), ContextError::DeadlineOverflow);
    let ok = ctx.build_proposal(5, 1_000).unwrap();
    assert_eq!(ok.command.proposal_id, 0);
}

#[test]
fn zero_timeout_still_initiates() {
    let mut ctx = SequencerConsensusContext::new(1);
    let build = ctx.build_proposal(5, 0).unwrap();
    assert!(build.command.deadline_epoch_millis >= 0);
    let validate = ctx.validate_proposal(5, 0).unwrap();
    assert!(validate.command.deadline_epoch_millis >= 0);
}

#[test]
fn build_deadline_lies_the_timeout_past_now() {
    let mut ctx = SequencerConsensusContext::new(1);
    let before = consensus_orchestrator::clock::now_epoch_millis();
    let init = ctx.build_proposal(5, 60_000).unwrap();
    let after = consensus_orchestrator::clock::now_epoch_millis();
    assert!(init.command.deadline_epoch_millis >= before + 60_000);
    assert!(init.command.deadline_epoch_millis <= after + 60_000);
}
