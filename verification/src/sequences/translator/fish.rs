//! Fish: escape sequences are written as they are, and the session's values
//! are command substitutions.

use vstd::prelude::*;
use vstd::string::StringExecFns;
use crate::sequences::TermSequence;
use crate::sequences::translator::{enclose, enclosed, sgr_code, sgr_code_of};

verus! {

/// The element as Fish writes it in a prompt.
pub open spec fn fish_text(element: TermSequence) -> Seq<char> {
    match sgr_code(element) {
        Some(code) => enclosed("\x1b["@, code, "m"@),
        None => match element {
            TermSequence::Percent => "%%"@,
            TermSequence::Username => "(whoami)"@,
            TermSequence::HostnameShort => "(hostname -s)"@,
            TermSequence::CurrentDirectoryFull => "(pwd)"@,
            TermSequence::CurrentDirectoryTilde => "(prompt_pwd)"@,
            TermSequence::PrivilegedIndicator => "$"@,
            TermSequence::Newline => "\n"@,
            TermSequence::Literal(s) => s@,
            _ => Seq::empty(),
        },
    }
}

/// Writes the element in Fish's prompt syntax.
pub fn to_fish_string(sequence: &TermSequence) -> (r: String)
    ensures
        r@ == fish_text(*sequence),
{
    match sgr_code_of(sequence) {
        Some(code) => enclose("\x1b[", code.as_str(), "m"),
        None => match sequence {
            TermSequence::Percent => String::from_str("%%"),
            TermSequence::Username => String::from_str("(whoami)"),
            TermSequence::HostnameShort => String::from_str("(hostname -s)"),
            TermSequence::CurrentDirectoryFull => String::from_str("(pwd)"),
            TermSequence::CurrentDirectoryTilde => String::from_str("(prompt_pwd)"),
            TermSequence::PrivilegedIndicator => String::from_str("$"),
            TermSequence::Newline => String::from_str("\n"),
            TermSequence::Literal(s) => s.clone(),
            _ => String::new(),
        },
    }
}

} // verus!
