//! The pipeline's stages and the per-turn stage settings.
//!
//! Stages form a strict total order; "run up to stage S" means executing
//! every stage from the first through S inclusive. Each turn the stage
//! selector maps the classified command to a fresh settings value — the
//! stage target and both display flags are written on every dispatch, so a
//! flag set by an earlier turn can never leak into the current one.

use vstd::prelude::*;
use crate::command::{CommandView, InteractiveCommand};

verus! {

/// The pipeline's stages, in the strict order in which they run.
#[derive(Clone, Copy, PartialEq, Eq, Structural, Debug)]
pub enum StageKind {
    /// Lexing and parsing of the registered source text.
    Parse,
    /// Lowering of the parsed tree.
    Desugar,
    /// Name resolution and type inference, with optional evaluation.
    Analysis,
}

/// The position of a stage in the pipeline's total order.
pub open spec fn stage_index(k: StageKind) -> int {
    match k {
        StageKind::Parse => 0,
        StageKind::Desugar => 1,
        StageKind::Analysis => 2,
    }
}

/// The stage that follows `k` in pipeline order.
pub open spec fn stage_after(k: StageKind) -> StageKind {
    match k {
        StageKind::Parse => StageKind::Desugar,
        StageKind::Desugar => StageKind::Analysis,
        StageKind::Analysis => StageKind::Analysis,
    }
}

/// The position of a stage, as a number stages can be compared by.
pub fn stage_position(k: StageKind) -> (n: u8)
    ensures
        n == stage_index(k),
{
    match k {
        StageKind::Parse => 0,
        StageKind::Desugar => 1,
        StageKind::Analysis => 2,
    }
}

/// The current stage settings: how far to run and what to display.
#[derive(Clone, Copy, PartialEq, Eq, Structural, Debug)]
pub struct Settings {
    /// The last stage to execute this turn: the stage target.
    pub stage: StageKind,
    /// Whether to render the parsed tree as the turn's artifact.
    pub dump_tree: bool,
    /// Whether to evaluate the final representation and surface the value.
    pub eval: bool,
}

/// The settings a fresh session starts from: run through analysis and
/// evaluate the result, with no tree dump.
pub open spec fn default_settings() -> Settings {
    Settings { stage: StageKind::Analysis, dump_tree: false, eval: true }
}

/// The settings a command selects. A type query runs through analysis with
/// no dump and no evaluation; a tree display stops right after parsing and
/// dumps the tree; source code runs through analysis and evaluates. Every
/// field is written for every command, so nothing of a prior turn survives.
pub open spec fn settings_for(c: CommandView) -> Settings {
    match c {
        CommandView::Type(_) => Settings {
            stage: StageKind::Analysis,
            dump_tree: false,
            eval: false,
        },
        CommandView::Display(_) => Settings { stage: StageKind::Parse, dump_tree: true, eval: false },
        _ => Settings { stage: StageKind::Analysis, dump_tree: false, eval: true },
    }
}

/// Select the stage settings for one command: a pure function of the
/// command, computed fresh each turn and applied atomically.
pub fn select_settings(c: &InteractiveCommand) -> (s: Settings)
    ensures
        s == settings_for(c@),
{
    match c {
        InteractiveCommand::Type(_) => Settings {
            stage: StageKind::Analysis,
            dump_tree: false,
            eval: false,
        },
        InteractiveCommand::Display(_) => Settings {
            stage: StageKind::Parse,
            dump_tree: true,
            eval: false,
        },
        _ => Settings { stage: StageKind::Analysis, dump_tree: false, eval: true },
    }
}

} // verus!
