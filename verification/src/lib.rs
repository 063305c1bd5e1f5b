//! Driver for an interactive compilation session.
//!
//! A session reads one line at a time. Each line is either a meta-command
//! (quit, clear the screen, show the version, show an inferred type, show a
//! parsed tree) or a fragment of source code to compile and evaluate. This
//! crate holds the verified core of that loop: the command classifier, the
//! session state threaded across turns, the stage selector, the pipeline
//! driver, and the slot discipline of the bounded worker pool. The compiler
//! stages themselves (parsing, analysis, evaluation) are outside
//! collaborators: the driver decides which stage runs next and commits each
//! stage's outcome, while a front end performs the stage work and the I/O.

pub mod command;
pub mod driver;
pub mod pool;
pub mod repl;
pub mod session;
pub mod stage;
pub mod text;
pub mod turn;
