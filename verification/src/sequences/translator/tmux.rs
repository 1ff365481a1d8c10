//! The tmux status line: escape sequences are written as they are, and the
//! session's values are tmux formats and commands.

use vstd::prelude::*;
use vstd::string::StringExecFns;
use crate::sequences::TermSequence;
use crate::sequences::translator::{enclose, enclosed, sgr_code, sgr_code_of};

verus! {

/// The element as tmux writes it in a status line.
pub open spec fn tmux_text(element: TermSequence) -> Seq<char> {
    match sgr_code(element) {
        Some(code) => enclosed("\x1b["@, code, "m"@),
        None => match element {
            TermSequence::Percent => "%"@,
            TermSequence::Username => "#(whoami)"@,
            TermSequence::HostnameShort => "#H"@,
            TermSequence::CurrentDirectoryFull => "#(pwd)"@,
            TermSequence::CurrentDirectoryTilde => "#(pwd -P | sed \"s|^$HOME|~|\")"@,
            TermSequence::PrivilegedIndicator => "$"@,
            TermSequence::Newline => "\n"@,
            TermSequence::Literal(s) => s@,
            _ => Seq::empty(),
        },
    }
}

/// Writes the element in the syntax of a tmux status line.
pub fn to_tmux_string(sequence: &TermSequence) -> (r: String)
    ensures
        r@ == tmux_text(*sequence),
{
    match sgr_code_of(sequence) {
        Some(code) => enclose("\x1b[", code.as_str(), "m"),
        None => match sequence {
            TermSequence::Percent => String::from_str("%"),
            TermSequence::Username => String::from_str("#(whoami)"),
            TermSequence::HostnameShort => String::from_str("#H"),
            TermSequence::CurrentDirectoryFull => String::from_str("#(pwd)"),
            TermSequence::CurrentDirectoryTilde => String::from_str(
                "#(pwd -P | sed \"s|^$HOME|~|\")",
            ),
            TermSequence::PrivilegedIndicator => String::from_str("$"),
            TermSequence::Newline => String::from_str("\n"),
            TermSequence::Literal(s) => s.clone(),
            _ => String::new(),
        },
    }
}

} // verus!
