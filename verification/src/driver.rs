//! The pipeline driver for one turn's run.
//!
//! A run executes the compiler stages for one registered block, in strict
//! stage order, from Parse up to the stage target the turn selected. The
//! stage work itself — parsing, lowering, analysis, evaluation — is done by
//! outside collaborators; the driver owns the protocol: it says which stage
//! is due next, commits each stage's artifact to the block before the next
//! stage may begin, and abandons the run for this block the moment a stage
//! reports fatal diagnostics, leaving the session usable for the next turn.
//! The outermost run occupies one worker-pool slot for its whole duration;
//! the pool's spare slot keeps nested stage jobs from deadlocking it.

use vstd::prelude::*;
use crate::command::spec_classify;
use crate::pool::WorkerPool;
use crate::session::{opt_view, BlockView, Diagnostic, SessionState, SessionView};
use crate::stage::{stage_after, stage_index, stage_position, StageKind};
use crate::text::trimmed;
use crate::turn::{is_pipeline, turn_result};

verus! {

/// What one stage invocation reported for the run's block.
pub enum StageOutcome {
    /// The parse stage succeeded: a rendering of the parsed tree.
    Tree(String),
    /// The desugar stage succeeded: the lowered tree.
    Desugared(String),
    /// The analysis stage succeeded: the inferred type and, when
    /// evaluation was enabled, the representation of the computed value.
    Analyzed(String, Option<String>),
    /// The stage reported diagnostics fatal for this block: the run is
    /// abandoned; the block stays registered but keeps no artifact.
    Failed(Vec<Diagnostic>),
}

/// The mathematical image of a stage outcome.
pub enum OutcomeView {
    Tree(Seq<char>),
    Desugared(Seq<char>),
    Analyzed(Seq<char>, Option<Seq<char>>),
    Failed(Seq<Seq<char>>),
}

impl View for StageOutcome {
    type V = OutcomeView;

    open spec fn view(&self) -> OutcomeView {
        match self {
            StageOutcome::Tree(t) => OutcomeView::Tree(t@),
            StageOutcome::Desugared(t) => OutcomeView::Desugared(t@),
            StageOutcome::Analyzed(t, v) => OutcomeView::Analyzed(t@, opt_view(*v)),
            StageOutcome::Failed(ds) => OutcomeView::Failed(ds@.map_values(|d: Diagnostic| d@)),
        }
    }
}

/// The diagnostics an outcome carries.
pub open spec fn outcome_diagnostics(o: OutcomeView) -> Seq<Seq<char>> {
    match o {
        OutcomeView::Failed(ds) => ds,
        _ => Seq::empty(),
    }
}

/// Whether `o` is an outcome that stage `k` can report.
pub open spec fn outcome_fits(k: StageKind, o: OutcomeView) -> bool {
    match o {
        OutcomeView::Tree(_) => k == StageKind::Parse,
        OutcomeView::Desugared(_) => k == StageKind::Desugar,
        OutcomeView::Analyzed(_, _) => k == StageKind::Analysis,
        OutcomeView::Failed(_) => true,
    }
}

/// One turn's pipeline run: which block it compiles, how far it goes, and
/// where it stands.
pub struct PipelineRun {
    /// The block this run compiles.
    pub block: usize,
    /// The stage target captured when the run began.
    pub target: StageKind,
    /// The stage due to run next; nothing once the run is over.
    pub pending: Option<StageKind>,
    /// Whether a stage reported fatal diagnostics for the block.
    pub failed: bool,
}

/// The stage the run is due to execute (Parse if none is pending; never
/// read in that case).
pub open spec fn pending_stage(run: PipelineRun) -> StageKind {
    match run.pending {
        Some(k) => k,
        None => StageKind::Parse,
    }
}

/// The stage that follows `k` under target `target`: none once `k` has
/// reached the target, the next stage in pipeline order otherwise.
pub open spec fn next_after(k: StageKind, target: StageKind) -> Option<StageKind> {
    if stage_index(k) >= stage_index(target) {
        None
    } else {
        Some(stage_after(k))
    }
}

/// Begin the turn's run for `block`. The outermost pipeline job takes one
/// pool slot for the whole run; the pool is idle between turns, and since
/// it always offers one slot beyond its worker count, at least one slot
/// stays free for the nested jobs a stage submits.
pub fn start_run(s: &SessionState, pool: &mut WorkerPool, block: usize) -> (run: PipelineRun)
    requires
        s.wf(),
        block < s@.blocks.len(),
        old(pool).wf(),
        old(pool).free_slots() == old(pool).slot_count(),
    ensures
        final(pool).wf(),
        final(pool).slot_count() == old(pool).slot_count(),
        final(pool).free_slots() == final(pool).slot_count() - 1,
        final(pool).free_slots() >= 1,
        run.block == block,
        run.target == s@.settings.stage,
        run.pending == Some(StageKind::Parse),
        !run.failed,
{
    proof {
        crate::pool::lemma_pool_min_slots(*pool);
    }
    pool.acquire_slot();
    PipelineRun { block, target: s.settings.stage, pending: Some(StageKind::Parse), failed: false }
}

/// The session after `o` is committed for `block`: a successful stage
/// writes its artifact into the block; a failure appends its diagnostics
/// and leaves the block without an artifact.
pub open spec fn stage_committed(s: SessionView, block: int, o: OutcomeView) -> SessionView {
    match o {
        OutcomeView::Tree(t) => SessionView {
            blocks: s.blocks.update(block, BlockView { tree: Some(t), ..s.blocks[block] }),
            ..s
        },
        OutcomeView::Desugared(t) => SessionView {
            blocks: s.blocks.update(block, BlockView { desugared: Some(t), ..s.blocks[block] }),
            ..s
        },
        OutcomeView::Analyzed(t, v) => SessionView {
            blocks: s.blocks.update(
                block,
                BlockView { ty: Some(t), value: v, ..s.blocks[block] },
            ),
            ..s
        },
        OutcomeView::Failed(ds) => SessionView { diagnostics: s.diagnostics + ds, ..s },
    }
}

/// Move the run past the stage that just succeeded: on to the next stage
/// in order, or to rest once the target stage has executed.
fn advance(run: &mut PipelineRun)
    requires
        old(run).pending is Some,
    ensures
        final(run).block == old(run).block,
        final(run).target == old(run).target,
        final(run).failed == old(run).failed,
        final(run).pending == next_after(pending_stage(*old(run)), old(run).target),
{
    let k = match run.pending {
        Some(k) => k,
        None => StageKind::Parse,
    };
    if stage_position(k) >= stage_position(run.target) {
        run.pending = None;
    } else {
        run.pending = Some(
            match k {
                StageKind::Parse => StageKind::Desugar,
                _ => StageKind::Analysis,
            },
        );
    }
}

/// Commit one stage's outcome for the run's block and advance the run.
/// Stages execute in strict order: the outcome must belong to the pending
/// stage, a success moves the run to the following stage (or ends it once
/// the target has executed), and a failure abandons the run for this block.
pub fn apply_stage(s: &mut SessionState, run: &mut PipelineRun, outcome: StageOutcome)
    requires
        old(s).wf(),
        old(run).block < old(s)@.blocks.len(),
        old(run).pending is Some,
        outcome_fits(pending_stage(*old(run)), outcome@),
    ensures
        final(s).wf(),
        final(s)@ == stage_committed(old(s)@, old(run).block as int, outcome@),
        final(run).block == old(run).block,
        final(run).target == old(run).target,
        (outcome@ matches OutcomeView::Failed(_) ==> final(run).failed
            && final(run).pending is None),
        (!(outcome@ matches OutcomeView::Failed(_)) ==> final(run).failed == old(run).failed
            && final(run).pending == next_after(pending_stage(*old(run)), old(run).target)),
{
    let ghost o = outcome@;
    let b = run.block;
    match outcome {
        StageOutcome::Tree(t) => {
            s.blocks[b].tree = Some(t);
            proof {
                lemma_commit_keeps_wf(old(s)@, s@, b as int);
                assert(s@ =~= stage_committed(old(s)@, b as int, o));
            }
            advance(run);
        },
        StageOutcome::Desugared(t) => {
            s.blocks[b].desugared = Some(t);
            proof {
                lemma_commit_keeps_wf(old(s)@, s@, b as int);
                assert(s@ =~= stage_committed(old(s)@, b as int, o));
            }
            advance(run);
        },
        StageOutcome::Analyzed(t, v) => {
            s.blocks[b].ty = Some(t);
            s.blocks[b].value = v;
            proof {
                lemma_commit_keeps_wf(old(s)@, s@, b as int);
                assert(s@ =~= stage_committed(old(s)@, b as int, o));
            }
            advance(run);
        },
        StageOutcome::Failed(mut ds) => {
            s.diagnostics.append(&mut ds);
            run.failed = true;
            run.pending = None;
            proof {
                assert(s@ =~= stage_committed(old(s)@, b as int, o));
            }
        },
    }
}

/// An update that only fills a block's artifacts keeps the session well
/// formed: no source id changes.
proof fn lemma_commit_keeps_wf(pre: SessionView, post: SessionView, block: int)
    requires
        pre.wf(),
        post.source_map == pre.source_map,
        post.blocks.len() == pre.blocks.len(),
        forall|i: int|
            0 <= i < post.blocks.len() ==> (#[trigger] post.blocks[i]).source_id
                == pre.blocks[i].source_id,
    ensures
        post.wf(),
{
    assert forall|i: int| 0 <= i < post.blocks.len() implies (
    #[trigger] post.blocks[i]).source_id < post.source_map.len() by {
        assert(pre.blocks[i].source_id < pre.source_map.len());
    }
}

/// The turn's primary artifact, at most one per run.
pub enum Artifact {
    /// A textual rendering of the parsed tree (`:d`).
    TreeDump(String),
    /// A description of the inferred type (`:t`).
    TypeDesc(String),
    /// The representation of the evaluated value (source code, with
    /// evaluation enabled).
    Value(String),
}

/// The mathematical image of an artifact.
pub enum ArtifactView {
    TreeDump(Seq<char>),
    TypeDesc(Seq<char>),
    Value(Seq<char>),
}

impl View for Artifact {
    type V = ArtifactView;

    open spec fn view(&self) -> ArtifactView {
        match self {
            Artifact::TreeDump(t) => ArtifactView::TreeDump(t@),
            Artifact::TypeDesc(t) => ArtifactView::TypeDesc(t@),
            Artifact::Value(t) => ArtifactView::Value(t@),
        }
    }
}

/// One run's transient result: the pending diagnostics and at most one
/// primary artifact, consumed by the loop and not retained beyond what the
/// block table stores.
pub struct RunResult {
    /// The diagnostics pending at the end of the run.
    pub diagnostics: Vec<Diagnostic>,
    /// The primary artifact, if the run produced one.
    pub artifact: Option<Artifact>,
}

/// The artifact a finished run surfaces. Nothing if the run was abandoned.
/// Under a Parse target, the tree dump when the dump flag is set; under an
/// Analysis target, the evaluated value when evaluation is enabled and the
/// inferred type otherwise — never both in one turn, since the selector
/// never enables both.
pub open spec fn artifact_of(s: SessionView, run: PipelineRun) -> Option<ArtifactView> {
    let b = s.blocks[run.block as int];
    if run.failed {
        None
    } else {
        match run.target {
            StageKind::Parse => (match b.tree {
                Some(t) => if s.settings.dump_tree {
                    Some(ArtifactView::TreeDump(t))
                } else {
                    None
                },
                None => None,
            }),
            StageKind::Desugar => None,
            StageKind::Analysis => if s.settings.eval {
                (match b.value {
                    Some(v) => Some(ArtifactView::Value(v)),
                    None => None,
                })
            } else {
                (match b.ty {
                    Some(t) => Some(ArtifactView::TypeDesc(t)),
                    None => None,
                })
            },
        }
    }
}

/// A copy of the pending diagnostics, message for message.
fn clone_diagnostics(v: &Vec<Diagnostic>) -> (r: Vec<Diagnostic>)
    ensures
        r@.map_values(|d: Diagnostic| d@) =~= v@.map_values(|d: Diagnostic| d@),
{
    let mut r: Vec<Diagnostic> = Vec::new();
    let mut i: usize = 0;
    while i < v.len()
        invariant
            i <= v.len(),
            r@.len() == i,
            forall|j: int| 0 <= j < i ==> (#[trigger] r@[j])@ == v@[j]@,
        decreases v.len() - i,
    {
        r.push(v[i].clone());
        i = i + 1;
    }
    proof {
        assert(r@.map_values(|d: Diagnostic| d@) =~= v@.map_values(|d: Diagnostic| d@));
    }
    r
}

/// Conclude the run: the outermost job gives its pool slot back, and the
/// turn's result — the pending diagnostics plus the artifact the settings
/// call for — is read off the session.
pub fn finish_run(s: &SessionState, run: &PipelineRun, pool: &mut WorkerPool) -> (r: RunResult)
    requires
        s.wf(),
        run.block < s@.blocks.len(),
        run.pending is None,
        old(pool).wf(),
        old(pool).free_slots() < old(pool).slot_count(),
    ensures
        final(pool).wf(),
        final(pool).slot_count() == old(pool).slot_count(),
        final(pool).free_slots() == old(pool).free_slots() + 1,
        r.diagnostics@.map_values(|d: Diagnostic| d@) == s@.diagnostics,
        (match (r.artifact, artifact_of(s@, *run)) {
            (Some(a), Some(v)) => a@ == v,
            (None, None) => true,
            _ => false,
        }),
{
    pool.release_slot();
    let diagnostics = clone_diagnostics(&s.diagnostics);
    let blk = &s.blocks[run.block];
    let artifact: Option<Artifact> = if run.failed {
        None
    } else {
        match run.target {
            StageKind::Parse => match &blk.tree {
                Some(t) => if s.settings.dump_tree {
                    Some(Artifact::TreeDump(t.clone()))
                } else {
                    None
                },
                None => None,
            },
            StageKind::Desugar => None,
            StageKind::Analysis => if s.settings.eval {
                match &blk.value {
                    Some(v) => Some(Artifact::Value(v.clone())),
                    None => None,
                }
            } else {
                match &blk.ty {
                    Some(t) => Some(Artifact::TypeDesc(t.clone())),
                    None => None,
                }
            },
        }
    };
    RunResult { diagnostics, artifact }
}

/// Law: committing a stage outcome appends exactly the diagnostics that
/// outcome carries — a success appends none — and touches nothing pending
/// from before.
pub proof fn lemma_commit_appends_own_diagnostics(s: SessionView, block: int, o: OutcomeView)
    ensures
        stage_committed(s, block, o).diagnostics =~= s.diagnostics + outcome_diagnostics(o),
{
    match o {
        OutcomeView::Failed(_) => {
        },
        _ => {
            assert(s.diagnostics + Seq::<Seq<char>>::empty() =~= s.diagnostics);
        },
    }
}

/// Law: the diagnostics pending during a turn are exactly the turn's own.
/// A pipeline turn clears the previous turn's reports before any stage
/// runs, and committing a stage outcome then appends precisely the
/// diagnostics it carries, so no earlier turn's entry is ever among them.
pub proof fn lemma_turn_diagnostics_isolated(
    s: SessionView,
    line: Seq<char>,
    block: int,
    o: OutcomeView,
)
    requires
        trimmed(line).len() > 0,
        is_pipeline(spec_classify(line)),
    ensures
        stage_committed(turn_result(s, line), block, o).diagnostics =~= outcome_diagnostics(o),
{
    lemma_commit_appends_own_diagnostics(turn_result(s, line), block, o);
    assert(turn_result(s, line).diagnostics =~= Seq::<Seq<char>>::empty());
    assert(Seq::<Seq<char>>::empty() + outcome_diagnostics(o) =~= outcome_diagnostics(o));
}

} // verus!
