use consensus_orchestrator::build_pipeline::{BuildEvent, BuildStep};
use consensus_orchestrator::context::SequencerConsensusContext;
use consensus_orchestrator::types::Transaction;
use consensus_orchestrator::validate_pipeline::{BuilderReply, ValidateStep};

fn tx(payload: u64) -> Transaction {
    Transaction { payload }
}

#[test]
fn built_proposal_is_stored_and_reproposable() {
    let mut ctx = SequencerConsensusContext::new(1);
    let init = ctx.build_proposal(5, 1_000).unwrap();
    let mut pipeline = init.pipeline;
    let step = ctx.apply_build_event(&mut pipeline, BuildEvent::Chunk(vec![tx(1), tx(2)]));
    assert_eq!(step, BuildStep::Continue);
    let step = ctx.apply_build_event(&mut pipeline, BuildEvent::Finished(42));
    assert_eq!(step, BuildStep::Signal(42));
    assert_eq!(ctx.repropose(42, 5).unwrap(), vec![tx(1), tx(2)]);
}

#[test]
fn chunk_order_is_the_canonical_transaction_order() {
    let mut ctx = SequencerConsensusContext::new(1);
    let init = ctx.build_proposal(5, 1_000).unwrap();
    let mut pipeline = init.pipeline;
    ctx.apply_build_event(&mut pipeline, BuildEvent::Chunk(vec![tx(3)]));
    ctx.apply_build_event(&mut pipeline, BuildEvent::Chunk(vec![tx(1), tx(4)]));
    ctx.apply_build_event(&mut pipeline, BuildEvent::Chunk(vec![]));
    ctx.apply_build_event(&mut pipeline, BuildEvent::Finished(8));
    assert_eq!(ctx.repropose(8, 5).unwrap(), vec![tx(3), tx(1), tx(4)]);
}

#[test]
fn client_error_abandons_without_completion() {
    let mut ctx = SequencerConsensusContext::new(1);
    let init = ctx.build_proposal(3, 1_000).unwrap();
    let mut pipeline = init.pipeline;
    assert_eq!(
        ctx.apply_build_event(&mut pipeline, BuildEvent::Chunk(vec![tx(9)])),
        BuildStep::Continue
    );
    assert_eq!(ctx.apply_build_event(&mut pipeline, BuildEvent::ClientError), BuildStep::Abort);
    assert!(ctx.repropose(9, 3).is_err());
}

#[test]
fn validated_proposal_is_stored_and_reproposable() {
    let mut ctx = SequencerConsensusContext::new(1);
    let init = ctx.validate_proposal(5, 1_000).unwrap();
    let mut pipeline = init.pipeline;
    assert_eq!(
        pipeline.on_chunk(vec![tx(1), tx(2)], BuilderReply::Processing),
        ValidateStep::Continue
    );
    assert_eq!(pipeline.on_chunk(vec![tx(3)], BuilderReply::Processing), ValidateStep::Continue);
    let step = ctx.apply_validate_close(pipeline, BuilderReply::Finished(7));
    assert_eq!(step, ValidateStep::Signal(7));
    assert_eq!(ctx.repropose(7, 5).unwrap(), vec![tx(1), tx(2), tx(3)]);
}

#[test]
fn premature_finish_while_streaming_is_fatal() {
    let mut ctx = SequencerConsensusContext::new(1);
    let init = ctx.validate_proposal(5, 1_000).unwrap();
    let mut pipeline = init.pipeline;
    assert_eq!(pipeline.on_chunk(vec![tx(1)], BuilderReply::Finished(7)), ValidateStep::Fatal);
}

#[test]
fn rejected_chunk_aborts_without_result() {
    let mut ctx = SequencerConsensusContext::new(1);
    let init = ctx.validate_proposal(5, 1_000).unwrap();
    let mut pipeline = init.pipeline;
    assert_eq!(pipeline.on_chunk(vec![tx(1)], BuilderReply::Invalid), ValidateStep::Rejected);
    assert!(ctx.repropose(7, 5).is_err());
}

#[test]
fn unfinished_final_reply_never_signals() {
    let mut ctx = SequencerConsensusContext::new(1);

    let init = ctx.validate_proposal(5, 1_000).unwrap();
    let step = ctx.apply_validate_close(init.pipeline, BuilderReply::Invalid);
    assert_eq!(step, ValidateStep::Rejected);
    assert!(ctx.repropose(7, 5).is_err());

    let init = ctx.validate_proposal(5, 1_000).unwrap();
    let step = ctx.apply_validate_close(init.pipeline, BuilderReply::Processing);
    assert_eq!(step, ValidateStep::Fatal);
    assert!(ctx.repropose(7, 5).is_err());
}

#[test]
fn empty_validation_stream_can_still_finish() {
    let mut ctx = SequencerConsensusContext::new(1);
    let init = ctx.validate_proposal(2, 1_000).unwrap();
    let step = ctx.apply_validate_close(init.pipeline, BuilderReply::Finished(11));
    assert_eq!(step, ValidateStep::Signal(11));
    assert_eq!(ctx.repropose(11, 2).unwrap(), Vec::new());
}

#[test]
fn same_content_from_two_attempts_collapses_into_one_record() {
    let mut ctx = SequencerConsensusContext::new(1);
    let first = ctx.build_proposal(5, 1_000).unwrap();
    let second = ctx.build_proposal(5, 1_000).unwrap();
    assert_ne!(first.command.proposal_id, second.command.proposal_id);
    let mut p1 = first.pipeline;
    let mut p2 = second.pipeline;
    ctx.apply_build_event(&mut p1, BuildEvent::Chunk(vec![tx(1), tx(2)]));
    ctx.apply_build_event(&mut p2, BuildEvent::Chunk(vec![tx(1), tx(2)]));
    assert_eq!(ctx.apply_build_event(&mut p1, BuildEvent::Finished(42)), BuildStep::Signal(42));
    assert_eq!(ctx.apply_build_event(&mut p2, BuildEvent::Finished(42)), BuildStep::Signal(42));
    assert_eq!(ctx.repropose(42, 5).unwrap(), vec![tx(1), tx(2)]);
}
