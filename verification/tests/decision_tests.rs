use consensus_orchestrator::build_pipeline::BuildEvent;
use consensus_orchestrator::context::SequencerConsensusContext;
use consensus_orchestrator::types::{ContextError, Transaction, Vote};

fn tx(payload: u64) -> Transaction {
    Transaction { payload }
}

fn complete_build(ctx: &mut SequencerConsensusContext, height: u64, content_id: u64, payload: u64) -> u64 {
    let init = ctx.build_proposal(height, 1_000).unwrap();
    let mut pipeline = init.pipeline;
    ctx.apply_build_event(&mut pipeline, BuildEvent::Chunk(vec![tx(payload)]));
    ctx.apply_build_event(&mut pipeline, BuildEvent::Finished(content_id));
    init.command.proposal_id
}

#[test]
fn decision_prunes_every_height_up_to_the_decided_one() {
    let mut ctx = SequencerConsensusContext::new(2);
    complete_build(&mut ctx, 3, 30, 3);
    let decided_pid = complete_build(&mut ctx, 5, 50, 5);
    complete_build(&mut ctx, 6, 60, 6);

    let votes = vec![Vote { height: 5, voter: 0 }, Vote { height: 5, voter: 1 }];
    let action = ctx.decision_reached(50, &votes).unwrap();
    assert_eq!(action.height, 5);
    assert_eq!(action.proposal_id, decided_pid);

    assert!(ctx.repropose(30, 3).is_err());
    assert!(ctx.repropose(50, 5).is_err());
    assert_eq!(ctx.repropose(60, 6).unwrap(), vec![tx(6)]);
}

#[test]
fn repropose_after_decision_misses_below_and_succeeds_above() {
    let mut ctx = SequencerConsensusContext::new(1);
    complete_build(&mut ctx, 3, 33, 3);
    complete_build(&mut ctx, 5, 55, 5);
    complete_build(&mut ctx, 6, 66, 6);
    ctx.decision_reached(55, &vec![Vote { height: 5, voter: 0 }]).unwrap();

    assert_eq!(
        ctx.repropose(33, 3).unwrap_err(),
        ContextError::ProposalNotFound { height: 3, content_id: 33 }
    );
    assert_eq!(ctx.repropose(66, 6).unwrap(), vec![tx(6)]);
}

#[test]
fn decision_for_unknown_content_is_an_invariant_violation() {
    let mut ctx = SequencerConsensusContext::new(1);
    complete_build(&mut ctx, 4, 40, 4);
    let votes = vec![Vote { height: 4, voter: 0 }];
    assert_eq!(
        ctx.decision_reached(99, &votes).unwrap_err(),
        ContextError::ProposalNotFound { height: 4, content_id: 99 }
    );
    // nothing was pruned by the failed decision
    assert_eq!(ctx.repropose(40, 4).unwrap(), vec![tx(4)]);
}
