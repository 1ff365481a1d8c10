//! Bash: escape sequences stand between `\[` and `\]`, which tell the line
//! editor that they take no room, and the session's values are backslash
//! escapes.

use vstd::prelude::*;
use vstd::string::StringExecFns;
use crate::sequences::TermSequence;
use crate::sequences::translator::{enclose, enclosed, sgr_code, sgr_code_of};

verus! {

/// The element as Bash writes it in a prompt.
pub open spec fn bash_text(element: TermSequence) -> Seq<char> {
    match sgr_code(element) {
        Some(code) => enclosed("\\[\\e["@, code, "m\\]"@),
        None => match element {
            TermSequence::Percent => "%%"@,
            TermSequence::Username => "\\u"@,
            TermSequence::HostnameShort => "\\h"@,
            TermSequence::CurrentDirectoryFull => "\\w"@,
            TermSequence::CurrentDirectoryTilde => "\\w"@,
            TermSequence::PrivilegedIndicator => "\\$"@,
            TermSequence::Newline => "\\n"@,
            TermSequence::Literal(s) => s@,
            _ => Seq::empty(),
        },
    }
}

/// Writes the element in Bash's prompt syntax.
pub fn to_bash_string(sequence: &TermSequence) -> (r: String)
    ensures
        r@ == bash_text(*sequence),
{
    match sgr_code_of(sequence) {
        Some(code) => enclose("\\[\\e[", code.as_str(), "m\\]"),
        None => match sequence {
            TermSequence::Percent => String::from_str("%%"),
            TermSequence::Username => String::from_str("\\u"),
            TermSequence::HostnameShort => String::from_str("\\h"),
            TermSequence::CurrentDirectoryFull => String::from_str("\\w"),
            TermSequence::CurrentDirectoryTilde => String::from_str("\\w"),
            TermSequence::PrivilegedIndicator => String::from_str("\\$"),
            TermSequence::Newline => String::from_str("\\n"),
            TermSequence::Literal(s) => s.clone(),
            _ => String::new(),
        },
    }
}

} // verus!
