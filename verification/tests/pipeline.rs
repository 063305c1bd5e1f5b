use hash_interactive::driver::{apply_stage, finish_run, start_run, Artifact, StageOutcome};
use hash_interactive::pool::WorkerPool;
use hash_interactive::session::{Diagnostic, SessionState};
use hash_interactive::stage::StageKind;
use hash_interactive::turn::{begin_turn, TurnAction};

fn run_block(s: &mut SessionState, line: &str) -> usize {
    match begin_turn(s, line) {
        TurnAction::Run(id) => id,
        _ => panic!("expected a pipeline turn"),
    }
}

#[test]
fn evaluation_turn_produces_the_value() {
    let mut s = SessionState::new();
    let mut pool = WorkerPool::new(2);
    let id = run_block(&mut s, "1 + 2");
    assert_eq!(s.block_count(), 1);

    let mut run = start_run(&s, &mut pool, id);
    assert_eq!(run.target, StageKind::Analysis);
    assert_eq!(run.pending, Some(StageKind::Parse));
    apply_stage(&mut s, &mut run, StageOutcome::Tree(String::from("(add 1 2)")));
    assert_eq!(run.pending, Some(StageKind::Desugar));
    apply_stage(&mut s, &mut run, StageOutcome::Desugared(String::from("(add 1 2)")));
    assert_eq!(run.pending, Some(StageKind::Analysis));
    apply_stage(
        &mut s,
        &mut run,
        StageOutcome::Analyzed(String::from("i32"), Some(String::from("3"))),
    );
    assert_eq!(run.pending, None);
    assert!(!run.failed);

    let result = finish_run(&s, &run, &mut pool);
    assert_eq!(result.diagnostics.len(), 0);
    match result.artifact {
        Some(Artifact::Value(v)) => assert_eq!(v, "3"),
        _ => panic!("expected the evaluated value"),
    }
    assert!(pool.is_idle());
}

#[test]
fn type_query_on_undefined_name_reports_only() {
    let mut s = SessionState::new();
    let mut pool = WorkerPool::new(1);
    let id = run_block(&mut s, ":t x");

    let mut run = start_run(&s, &mut pool, id);
    apply_stage(&mut s, &mut run, StageOutcome::Tree(String::from("x")));
    apply_stage(&mut s, &mut run, StageOutcome::Desugared(String::from("x")));
    apply_stage(
        &mut s,
        &mut run,
        StageOutcome::Failed(vec![Diagnostic::new(String::from("undefined name: x"))]),
    );
    assert!(run.failed);
    assert_eq!(run.pending, None);

    let result = finish_run(&s, &run, &mut pool);
    assert_eq!(result.diagnostics.len(), 1);
    assert_eq!(result.diagnostics[0].message, "undefined name: x");
    assert!(result.artifact.is_none());
    // The errored block stays registered, without artifacts.
    assert_eq!(s.block_count(), 1);
    assert!(s.blocks[0].ty.is_none());
    assert!(s.blocks[0].value.is_none());
}

#[test]
fn display_turn_stops_after_parse_and_dumps() {
    let mut s = SessionState::new();
    let mut pool = WorkerPool::new(2);
    let id = run_block(&mut s, ":d 1 + 2");

    let mut run = start_run(&s, &mut pool, id);
    assert_eq!(run.target, StageKind::Parse);
    apply_stage(&mut s, &mut run, StageOutcome::Tree(String::from("(add 1 2)")));
    // The target stage has executed: analysis never runs.
    assert_eq!(run.pending, None);

    let result = finish_run(&s, &run, &mut pool);
    assert_eq!(result.diagnostics.len(), 0);
    match result.artifact {
        Some(Artifact::TreeDump(t)) => assert_eq!(t, "(add 1 2)"),
        _ => panic!("expected the tree dump"),
    }
}

#[test]
fn type_query_surfaces_the_type_not_the_value() {
    let mut s = SessionState::new();
    let mut pool = WorkerPool::new(2);
    let id = run_block(&mut s, ":t 1 + 2");

    let mut run = start_run(&s, &mut pool, id);
    apply_stage(&mut s, &mut run, StageOutcome::Tree(String::from("(add 1 2)")));
    apply_stage(&mut s, &mut run, StageOutcome::Desugared(String::from("(add 1 2)")));
    apply_stage(&mut s, &mut run, StageOutcome::Analyzed(String::from("i32"), None));

    let result = finish_run(&s, &run, &mut pool);
    match result.artifact {
        Some(Artifact::TypeDesc(t)) => assert_eq!(t, "i32"),
        _ => panic!("expected the inferred type"),
    }
}

#[test]
fn parse_failure_abandons_the_run() {
    let mut s = SessionState::new();
    let mut pool = WorkerPool::new(2);
    let id = run_block(&mut s, "1 +");

    let mut run = start_run(&s, &mut pool, id);
    apply_stage(
        &mut s,
        &mut run,
        StageOutcome::Failed(vec![Diagnostic::new(String::from("unexpected end of input"))]),
    );
    assert!(run.failed);
    assert_eq!(run.pending, None);
    let result = finish_run(&s, &run, &mut pool);
    assert_eq!(result.diagnostics.len(), 1);
    assert!(result.artifact.is_none());
    assert!(pool.is_idle());
}

#[test]
fn diagnostics_never_carry_over_between_turns() {
    let mut s = SessionState::new();
    let mut pool = WorkerPool::new(2);

    // First turn fails and leaves one pending diagnostic.
    let id = run_block(&mut s, "1 +");
    let mut run = start_run(&s, &mut pool, id);
    apply_stage(
        &mut s,
        &mut run,
        StageOutcome::Failed(vec![Diagnostic::new(String::from("unexpected end of input"))]),
    );
    finish_run(&s, &run, &mut pool);
    assert_eq!(s.diagnostics.len(), 1);

    // The next pipeline turn clears it before any stage runs; this turn's
    // own report is the only one pending afterwards.
    let id = run_block(&mut s, ":t x");
    assert_eq!(s.diagnostics.len(), 0);
    let mut run = start_run(&s, &mut pool, id);
    apply_stage(&mut s, &mut run, StageOutcome::Tree(String::from("x")));
    apply_stage(&mut s, &mut run, StageOutcome::Desugared(String::from("x")));
    apply_stage(
        &mut s,
        &mut run,
        StageOutcome::Failed(vec![Diagnostic::new(String::from("undefined name: x"))]),
    );
    let result = finish_run(&s, &run, &mut pool);
    assert_eq!(result.diagnostics.len(), 1);
    assert_eq!(result.diagnostics[0].message, "undefined name: x");
    // Both errored blocks stay registered for traceability.
    assert_eq!(s.block_count(), 2);
}
