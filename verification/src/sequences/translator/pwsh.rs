//! PowerShell: escape sequences are written as they are, and the session's
//! values are variables and expressions that the shell expands.

use vstd::prelude::*;
use vstd::string::StringExecFns;
use crate::sequences::TermSequence;
use crate::sequences::translator::{enclose, enclosed, sgr_code, sgr_code_of};

verus! {

/// The element as PowerShell writes it in a prompt.
pub open spec fn pwsh_text(element: TermSequence) -> Seq<char> {
    match sgr_code(element) {
        Some(code) => enclosed("\x1b["@, code, "m"@),
        None => match element {
            TermSequence::Percent => "%%"@,
            TermSequence::Username => "$env:USERNAME"@,
            TermSequence::HostnameShort => "$env:COMPUTERNAME"@,
            TermSequence::CurrentDirectoryFull => "$(Get-Location).Path"@,
            TermSequence::CurrentDirectoryTilde =>
                "$( (Get-Location).Path -replace \"^$([System.Environment]::GetFolderPath('UserProfile'))\", \"~\")"@,
            TermSequence::PrivilegedIndicator => "#"@,
            TermSequence::Newline => "`n"@,
            TermSequence::Literal(s) => s@,
            _ => Seq::empty(),
        },
    }
}

/// Writes the element in PowerShell's prompt syntax.
pub fn to_pwsh_string(sequence: &TermSequence) -> (r: String)
    ensures
        r@ == pwsh_text(*sequence),
{
    match sgr_code_of(sequence) {
        Some(code) => enclose("\x1b[", code.as_str(), "m"),
        None => match sequence {
            TermSequence::Percent => String::from_str("%%"),
            TermSequence::Username => String::from_str("$env:USERNAME"),
            TermSequence::HostnameShort => String::from_str("$env:COMPUTERNAME"),
            TermSequence::CurrentDirectoryFull => String::from_str("$(Get-Location).Path"),
            TermSequence::CurrentDirectoryTilde => String::from_str(
                "$( (Get-Location).Path -replace \"^$([System.Environment]::GetFolderPath('UserProfile'))\", \"~\")",
            ),
            TermSequence::PrivilegedIndicator => String::from_str("#"),
            TermSequence::Newline => String::from_str("`n"),
            TermSequence::Literal(s) => s.clone(),
            _ => String::new(),
        },
    }
}

} // verus!
