//! The read–dispatch–print loop's decisions.
//!
//! The loop itself lives in the front end: it blocks on the line source,
//! prints, and exits the process. What it does with each read outcome is
//! decided here, so that the termination paths are pinned down: an
//! interrupt or the end of input is a normal ending, never an error, and
//! only an unexpected read failure is reported as recoverable.

use vstd::prelude::*;
use crate::command::{ErrorView, InteractiveError};
use vstd::string::StringExecFns;

verus! {

/// What one attempt to read a line produced, as the loop sees it.
pub enum ReadEvent {
    /// A line of text was read.
    Line(String),
    /// The pending read was interrupted.
    Interrupted,
    /// The input source is exhausted.
    EndOfInput,
    /// The read failed in some other way; the message describes how.
    Failed(String),
}

/// What the loop does with one read outcome.
pub enum ReadAction {
    /// Dispatch the line as one turn.
    Process(String),
    /// Print the farewell and leave the loop for a clean exit.
    Farewell,
    /// Report a recoverable fault and keep reading.
    Report(InteractiveError),
}

/// Decide one read outcome. A read line is processed as one turn. An
/// interrupt or the end of input ends the loop with a farewell and a clean
/// exit — no pipeline work happens for it. Any other read failure is
/// wrapped as a recoverable fault and the loop continues.
pub fn on_read_event(ev: ReadEvent) -> (a: ReadAction)
    ensures
        (ev matches ReadEvent::Line(l) ==> a matches ReadAction::Process(p) && p@ == l@),
        (ev matches ReadEvent::Interrupted ==> a matches ReadAction::Farewell),
        (ev matches ReadEvent::EndOfInput ==> a matches ReadAction::Farewell),
        (ev matches ReadEvent::Failed(m) ==> a matches ReadAction::Report(e) && e@
            == ErrorView::Internal(m@)),
{
    match ev {
        ReadEvent::Line(l) => ReadAction::Process(l),
        ReadEvent::Interrupted => ReadAction::Farewell,
        ReadEvent::EndOfInput => ReadAction::Farewell,
        ReadEvent::Failed(m) => ReadAction::Report(InteractiveError::Internal(m)),
    }
}

/// The banner printed at startup and for `:v`: the word `Version`, one
/// space, and the version text — nothing else.
pub fn version_banner(version: &str) -> (r: String)
    ensures
        r@ == "Version "@ + version@,
{
    let mut banner = String::from_str("Version ");
    banner.append(version);
    banner
}

/// The farewell printed on a `:q` quit.
pub fn quit_farewell() -> (r: String)
    ensures
        r@ == "Goodbye!"@,
{
    String::from_str("Goodbye!")
}

/// The farewell printed when a read is interrupted or the input ends.
pub fn read_farewell() -> (r: String)
    ensures
        r@ == "Exiting!"@,
{
    String::from_str("Exiting!")
}

} // verus!
