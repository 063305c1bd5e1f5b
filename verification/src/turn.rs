//! Dispatch of one REPL turn.
//!
//! A turn takes the session state and one line of input. Empty input
//! short-circuits before classification and leaves the state untouched.
//! Otherwise the line is classified; quit, clear-screen and version
//! commands touch nothing and only name the action the loop performs, a
//! malformed command is handed back to be reported, and a pipeline command
//! clears the pending diagnostics, selects fresh stage settings, and
//! registers its text as a new interactive block for the driver to run.

use vstd::prelude::*;
use crate::command::{classify, spec_classify, CommandView, ErrorView, InteractiveCommand,
    InteractiveError};
use crate::session::{fresh_block, SessionState, SessionView};
use crate::stage::{select_settings, settings_for, Settings, StageKind};
use crate::text::{trim_of, trimmed};

verus! {

/// Whether a classification outcome runs the pipeline this turn.
pub open spec fn is_pipeline(r: Result<CommandView, ErrorView>) -> bool {
    match r {
        Ok(CommandView::Type(_)) => true,
        Ok(CommandView::Display(_)) => true,
        Ok(CommandView::Code(_)) => true,
        _ => false,
    }
}

/// The session after a pipeline turn: diagnostics cleared, the command's
/// settings in force, and the command's text registered as a fresh block.
pub open spec fn pipeline_turn(s: SessionView, cmd_settings: Settings, text: Seq<char>) -> SessionView {
    SessionView {
        source_map: s.source_map.push(text),
        diagnostics: Seq::empty(),
        blocks: s.blocks.push(fresh_block(s.source_map.len() as int)),
        settings: cmd_settings,
    }
}

/// The session after one turn on `line`. Only a pipeline command changes
/// the state; every other input — empty, a state-free command, a malformed
/// command — leaves it exactly as it was.
pub open spec fn turn_result(s: SessionView, line: Seq<char>) -> SessionView {
    if trimmed(line).len() == 0 {
        s
    } else {
        match spec_classify(line) {
            Ok(c) => match c {
                CommandView::Type(e) => pipeline_turn(s, settings_for(c), e),
                CommandView::Display(e) => pipeline_turn(s, settings_for(c), e),
                CommandView::Code(e) => pipeline_turn(s, settings_for(c), e),
                _ => s,
            },
            Err(_) => s,
        }
    }
}

/// What the loop does after dispatching one line.
pub enum TurnAction {
    /// Empty input: the turn is a no-op.
    Skip,
    /// `:q`: leave the session gracefully.
    Exit,
    /// `:c`: clear the screen.
    ClearScreen,
    /// `:v`: print the version banner.
    ShowVersion,
    /// A malformed command: report it; the session is untouched.
    Report(InteractiveError),
    /// A pipeline command: run the stages for the block just registered.
    Run(usize),
}

/// One pipeline dispatch: clear the prior turn's diagnostics, put the
/// command's settings in force atomically, and register the command's text.
fn dispatch_pipeline(s: &mut SessionState, cmd_settings: Settings, text: String) -> (id: usize)
    requires
        old(s).wf(),
    ensures
        final(s).wf(),
        final(s)@ == pipeline_turn(old(s)@, cmd_settings, text@),
        id == old(s)@.blocks.len(),
{
    s.clear_diagnostics();
    s.settings = cmd_settings;
    let id = s.register_block(text);
    proof {
        assert(s@ =~= pipeline_turn(old(s)@, cmd_settings, text@));
    }
    id
}

/// Dispatch one line of input against the session.
///
/// Empty (or all-whitespace) input is a no-op: no classification, no
/// pipeline work, and the session state is returned unchanged.
pub fn begin_turn(s: &mut SessionState, line: &str) -> (a: TurnAction)
    requires
        old(s).wf(),
    ensures
        final(s).wf(),
        final(s)@ == turn_result(old(s)@, line@),
        trimmed(line@).len() == 0 ==> (a matches TurnAction::Skip) && final(s)@ == old(s)@,
        trimmed(line@).len() > 0 ==> (match a {
            TurnAction::Skip => false,
            TurnAction::Exit => spec_classify(line@) == Ok::<CommandView, ErrorView>(
                CommandView::Quit,
            ),
            TurnAction::ClearScreen => spec_classify(line@) == Ok::<CommandView, ErrorView>(
                CommandView::Clear,
            ),
            TurnAction::ShowVersion => spec_classify(line@) == Ok::<CommandView, ErrorView>(
                CommandView::Version,
            ),
            TurnAction::Report(e) => spec_classify(line@) == Err::<CommandView, ErrorView>(e@),
            TurnAction::Run(b) => is_pipeline(spec_classify(line@)) && b == old(s)@.blocks.len(),
        }),
{
    let t = trim_of(line);
    if t.unicode_len() == 0 {
        return TurnAction::Skip;
    }
    match classify(line) {
        Ok(cmd) => {
            let cmd_settings = select_settings(&cmd);
            match cmd {
                InteractiveCommand::Quit => TurnAction::Exit,
                InteractiveCommand::Clear => TurnAction::ClearScreen,
                InteractiveCommand::Version => TurnAction::ShowVersion,
                InteractiveCommand::Type(e) => TurnAction::Run(
                    dispatch_pipeline(s, cmd_settings, e),
                ),
                InteractiveCommand::Display(e) => TurnAction::Run(
                    dispatch_pipeline(s, cmd_settings, e),
                ),
                InteractiveCommand::Code(e) => TurnAction::Run(
                    dispatch_pipeline(s, cmd_settings, e),
                ),
            }
        },
        Err(e) => TurnAction::Report(e),
    }
}

/// Law: stage settings never leak across turns. After any earlier turn —
/// for instance a `:t` query, which runs analysis with the dump flag off —
/// a turn that classifies as `:d <expr>` leaves the tree-dump flag set and
/// the stage target at Parse.
pub proof fn lemma_display_settings_fresh(s: SessionView, l1: Seq<char>, l2: Seq<char>)
    requires
        trimmed(l2).len() > 0,
        spec_classify(l2) matches Ok(CommandView::Display(_)),
    ensures
        turn_result(turn_result(s, l1), l2).settings == (Settings {
            stage: StageKind::Parse,
            dump_tree: true,
            eval: false,
        }),
{
}

/// Law: a `:t` query right after a `:d` turn — or after any other turn —
/// finds the tree-dump flag reset: the selector writes both the flag and
/// the stage target on every dispatch, never only one of them.
pub proof fn lemma_type_settings_fresh(s: SessionView, l1: Seq<char>, l2: Seq<char>)
    requires
        trimmed(l2).len() > 0,
        spec_classify(l2) matches Ok(CommandView::Type(_)),
    ensures
        turn_result(turn_result(s, l1), l2).settings == (Settings {
            stage: StageKind::Analysis,
            dump_tree: false,
            eval: false,
        }),
{
}

/// Law: a turn that runs the pipeline begins with no pending diagnostics —
/// whatever the prior turn reported is cleared before any stage runs.
pub proof fn lemma_turn_clears_diagnostics(s: SessionView, line: Seq<char>)
    requires
        trimmed(line).len() > 0,
        is_pipeline(spec_classify(line)),
    ensures
        turn_result(s, line).diagnostics =~= Seq::<Seq<char>>::empty(),
{
}

} // verus!
