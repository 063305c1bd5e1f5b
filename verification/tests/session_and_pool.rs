use hash_interactive::pool::WorkerPool;
use hash_interactive::session::SessionState;
use hash_interactive::stage::{Settings, StageKind};

#[test]
fn fresh_session_defaults() {
    let s = SessionState::new();
    assert_eq!(s.block_count(), 0);
    assert_eq!(s.source_map.len(), 0);
    assert_eq!(s.diagnostics.len(), 0);
    assert_eq!(
        s.settings,
        Settings { stage: StageKind::Analysis, dump_tree: false, eval: true }
    );
}

#[test]
fn block_ids_increase_and_text_is_kept() {
    let mut s = SessionState::new();
    let a = s.register_block(String::from("one"));
    let b = s.register_block(String::from("two"));
    assert_eq!(a, 0);
    assert_eq!(b, 1);
    assert_eq!(s.block_count(), 2);
    assert_eq!(s.block_source(0), "one");
    assert_eq!(s.block_source(1), "two");
}

#[test]
fn clearing_diagnostics_keeps_blocks() {
    let mut s = SessionState::new();
    s.register_block(String::from("one"));
    s.clear_diagnostics();
    assert_eq!(s.diagnostics.len(), 0);
    assert_eq!(s.block_count(), 1);
    assert_eq!(s.source_map.len(), 1);
}

#[test]
fn pool_has_one_slot_more_than_workers() {
    let p = WorkerPool::new(4);
    assert_eq!(p.usable_slots(), 5);
    assert_eq!(p.available_slots(), 5);
    let p = WorkerPool::new(1);
    assert_eq!(p.usable_slots(), 2);
}

#[test]
fn pool_with_zero_workers_still_has_two_slots() {
    let p = WorkerPool::new(0);
    assert!(p.usable_slots() >= 2);
    assert_eq!(p.usable_slots(), 2);
}

#[test]
fn pool_slot_discipline() {
    let mut p = WorkerPool::new(2);
    assert!(p.is_idle());
    p.acquire_slot();
    // The outer job holds one slot; room remains for a nested submission.
    assert!(p.available_slots() >= 1);
    p.acquire_slot();
    assert_eq!(p.available_slots(), 1);
    p.release_slot();
    p.release_slot();
    assert!(p.is_idle());
}
