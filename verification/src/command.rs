//! Classification of one line of input into a command.
//!
//! Meta-commands are recognized case-sensitively at the start of the trimmed
//! line: `:q`/`:quit`, `:c`/`:clear`, `:v`/`:version`, `:t <expr>`/`:type
//! <expr>`, `:d <expr>`/`:display <expr>`. Any other non-empty line is source
//! code. A command word that lacks its operand, or an unrecognized leading
//! `:` word, is a malformed command carried as a recoverable error.

use vstd::prelude::*;
use crate::text::{arg_prefix, chars_eq, has_arg_prefix, trim_of, trimmed};
use vstd::string::StringExecFns;

verus! {

/// One classified line of input, produced fresh each turn.
pub enum InteractiveCommand {
    /// `:q` — leave the session.
    Quit,
    /// `:c` — clear the screen.
    Clear,
    /// `:v` — print the version banner.
    Version,
    /// `:t <expr>` — show the inferred type of the expression.
    Type(String),
    /// `:d <expr>` — show the parsed tree of the expression.
    Display(String),
    /// Any other non-empty line: source code to compile and evaluate.
    Code(String),
}

/// A recoverable fault surfaced to the user; the session is left usable.
pub enum InteractiveError {
    /// A line that begins with `:` but with no recognized command word.
    UnknownCommand(String),
    /// A recognized command word whose required operand is missing.
    MissingOperand(String),
    /// A line-reading failure that is neither an interrupt nor end of input.
    Internal(String),
}

/// The mathematical image of a command: payloads as character sequences.
pub enum CommandView {
    Quit,
    Clear,
    Version,
    Type(Seq<char>),
    Display(Seq<char>),
    Code(Seq<char>),
}

/// The mathematical image of a recoverable fault.
pub enum ErrorView {
    UnknownCommand(Seq<char>),
    MissingOperand(Seq<char>),
    Internal(Seq<char>),
}

impl View for InteractiveCommand {
    type V = CommandView;

    open spec fn view(&self) -> CommandView {
        match self {
            InteractiveCommand::Quit => CommandView::Quit,
            InteractiveCommand::Clear => CommandView::Clear,
            InteractiveCommand::Version => CommandView::Version,
            InteractiveCommand::Type(e) => CommandView::Type(e@),
            InteractiveCommand::Display(e) => CommandView::Display(e@),
            InteractiveCommand::Code(e) => CommandView::Code(e@),
        }
    }
}

impl View for InteractiveError {
    type V = ErrorView;

    open spec fn view(&self) -> ErrorView {
        match self {
            InteractiveError::UnknownCommand(t) => ErrorView::UnknownCommand(t@),
            InteractiveError::MissingOperand(t) => ErrorView::MissingOperand(t@),
            InteractiveError::Internal(t) => ErrorView::Internal(t@),
        }
    }
}

impl InteractiveError {
    /// The rendered report line for this fault.
    pub open spec fn spec_message(&self) -> Seq<char> {
        match self {
            InteractiveError::UnknownCommand(t) => "unknown command: "@ + t@,
            InteractiveError::MissingOperand(t) => "missing operand after: "@ + t@,
            InteractiveError::Internal(m) => "internal error: "@ + m@,
        }
    }

    /// Render this fault as one report line.
    pub fn message(&self) -> (r: String)
        ensures
            r@ == self.spec_message(),
    {
        match self {
            InteractiveError::UnknownCommand(t) => {
                let mut r = String::from_str("unknown command: ");
                r.append(t.as_str());
                r
            },
            InteractiveError::MissingOperand(t) => {
                let mut r = String::from_str("missing operand after: ");
                r.append(t.as_str());
                r
            },
            InteractiveError::Internal(m) => {
                let mut r = String::from_str("internal error: ");
                r.append(m.as_str());
                r
            },
        }
    }
}

/// What follows the command word `p` in the trimmed line `t`, itself trimmed.
pub open spec fn operand_of(t: Seq<char>, p: Seq<char>) -> Seq<char> {
    trimmed(t.subrange(p.len() as int, t.len() as int))
}

/// How one line of input classifies. The payload of a `Type` or `Display`
/// command is the trimmed operand; the payload of `Code` is the whole line,
/// unchanged; a malformed command carries the trimmed line.
pub open spec fn spec_classify(line: Seq<char>) -> Result<CommandView, ErrorView> {
    let t = trimmed(line);
    if t == ":q"@ || t == ":quit"@ {
        Ok(CommandView::Quit)
    } else if t == ":c"@ || t == ":clear"@ {
        Ok(CommandView::Clear)
    } else if t == ":v"@ || t == ":version"@ {
        Ok(CommandView::Version)
    } else if arg_prefix(t, ":t"@) {
        Ok(CommandView::Type(operand_of(t, ":t"@)))
    } else if arg_prefix(t, ":type"@) {
        Ok(CommandView::Type(operand_of(t, ":type"@)))
    } else if arg_prefix(t, ":d"@) {
        Ok(CommandView::Display(operand_of(t, ":d"@)))
    } else if arg_prefix(t, ":display"@) {
        Ok(CommandView::Display(operand_of(t, ":display"@)))
    } else if t == ":t"@ || t == ":type"@ || t == ":d"@ || t == ":display"@ {
        Err(ErrorView::MissingOperand(t))
    } else if t.len() > 0 && t[0] == ':' {
        Err(ErrorView::UnknownCommand(t))
    } else {
        Ok(CommandView::Code(line))
    }
}

/// The operand of a command word: the rest of the trimmed line, trimmed.
fn operand(t: &str, p: &str) -> (r: String)
    requires
        arg_prefix(t@, p@),
    ensures
        r@ == operand_of(t@, p@),
{
    let np: usize = p.unicode_len();
    let nt: usize = t.unicode_len();
    let rest = t.substring_char(np, nt);
    String::from_str(trim_of(rest))
}

/// Classify one line of input: exactly one command, or a malformed-command
/// error. A pure function of the line; no side effects.
pub fn classify(line: &str) -> (r: Result<InteractiveCommand, InteractiveError>)
    ensures
        (match r {
            Ok(c) => spec_classify(line@) == Ok::<CommandView, ErrorView>(c@),
            Err(e) => spec_classify(line@) == Err::<CommandView, ErrorView>(e@),
        }),
{
    let t = trim_of(line);
    if chars_eq(t, ":q") || chars_eq(t, ":quit") {
        Ok(InteractiveCommand::Quit)
    } else if chars_eq(t, ":c") || chars_eq(t, ":clear") {
        Ok(InteractiveCommand::Clear)
    } else if chars_eq(t, ":v") || chars_eq(t, ":version") {
        Ok(InteractiveCommand::Version)
    } else if has_arg_prefix(t, ":t") {
        Ok(InteractiveCommand::Type(operand(t, ":t")))
    } else if has_arg_prefix(t, ":type") {
        Ok(InteractiveCommand::Type(operand(t, ":type")))
    } else if has_arg_prefix(t, ":d") {
        Ok(InteractiveCommand::Display(operand(t, ":d")))
    } else if has_arg_prefix(t, ":display") {
        Ok(InteractiveCommand::Display(operand(t, ":display")))
    } else if chars_eq(t, ":t") || chars_eq(t, ":type") || chars_eq(t, ":d") || chars_eq(
        t,
        ":display",
    ) {
        Err(InteractiveError::MissingOperand(String::from_str(t)))
    } else if t.unicode_len() > 0 && t.get_char(0) == ':' {
        Err(InteractiveError::UnknownCommand(String::from_str(t)))
    } else {
        Ok(InteractiveCommand::Code(String::from_str(line)))
    }
}

/// Law: a non-empty line whose trimmed text does not begin with `:`
/// classifies as source code, with the input text carried unchanged.
pub proof fn lemma_plain_input_is_code(line: Seq<char>)
    requires
        trimmed(line).len() > 0,
        trimmed(line)[0] != ':',
    ensures
        spec_classify(line) == Ok::<CommandView, ErrorView>(CommandView::Code(line)),
{
    reveal_strlit(":q");
    reveal_strlit(":quit");
    reveal_strlit(":c");
    reveal_strlit(":clear");
    reveal_strlit(":v");
    reveal_strlit(":version");
    reveal_strlit(":t");
    reveal_strlit(":type");
    reveal_strlit(":d");
    reveal_strlit(":display");
    let t = trimmed(line);
    assert(!arg_prefix(t, ":t"@)) by {
        if arg_prefix(t, ":t"@) {
            assert(t.subrange(0, ":t"@.len() as int)[0] == t[0]);
        }
    }
    assert(!arg_prefix(t, ":type"@)) by {
        if arg_prefix(t, ":type"@) {
            assert(t.subrange(0, ":type"@.len() as int)[0] == t[0]);
        }
    }
    assert(!arg_prefix(t, ":d"@)) by {
        if arg_prefix(t, ":d"@) {
            assert(t.subrange(0, ":d"@.len() as int)[0] == t[0]);
        }
    }
    assert(!arg_prefix(t, ":display"@)) by {
        if arg_prefix(t, ":display"@) {
            assert(t.subrange(0, ":display"@.len() as int)[0] == t[0]);
        }
    }
}

} // verus!
