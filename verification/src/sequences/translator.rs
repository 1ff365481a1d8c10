//! One translation for each shell, from an element to the text that stands for
//! it in that shell's prompt, and the SGR parameters that the translations
//! share.

use vstd::prelude::*;
use vstd::string::StringExecFns;
use crate::sequences::TermSequence;

pub mod bash;
pub mod fish;
pub mod pwsh;
pub mod tmux;
pub mod zsh;

verus! {

/// The SGR parameters of an element that changes style or colour: what
/// stands between `ESC [` and `m` in its escape sequence. Any other element
/// has none.
pub open spec fn sgr_code(element: TermSequence) -> Option<Seq<char>> {
    match element {
        TermSequence::BoldStart => Some("1"@),
        TermSequence::BoldEnd => Some("22"@),
        TermSequence::UnderlineStart => Some("4"@),
        TermSequence::UnderlineEnd => Some("24"@),
        TermSequence::StandoutStart => Some("7"@),
        TermSequence::StandoutEnd => Some("27"@),
        TermSequence::StrikethroughStart => Some("9"@),
        TermSequence::StrikethroughEnd => Some("29"@),
        TermSequence::OverlineStart => Some("53"@),
        TermSequence::OverlineEnd => Some("55"@),
        TermSequence::BlinkStart => Some("5"@),
        TermSequence::BlinkEnd => Some("25"@),
        TermSequence::ForegroundColor(color) => Some(color.sgr_foreground()),
        TermSequence::ForegroundColorEnd => Some("39"@),
        TermSequence::BackgroundColor(color) => Some(color.sgr_background()),
        TermSequence::BackgroundColorEnd => Some("49"@),
        TermSequence::ResetStyles => Some("0"@),
        _ => None,
    }
}

/// The SGR parameters of an element, if it has any.
pub fn sgr_code_of(element: &TermSequence) -> (r: Option<String>)
    ensures
        match r {
            Some(code) => sgr_code(*element) == Some(code@),
            None => sgr_code(*element) is None,
        },
{
    match element {
        TermSequence::BoldStart => Some(String::from_str("1")),
        TermSequence::BoldEnd => Some(String::from_str("22")),
        TermSequence::UnderlineStart => Some(String::from_str("4")),
        TermSequence::UnderlineEnd => Some(String::from_str("24")),
        TermSequence::StandoutStart => Some(String::from_str("7")),
        TermSequence::StandoutEnd => Some(String::from_str("27")),
        TermSequence::StrikethroughStart => Some(String::from_str("9")),
        TermSequence::StrikethroughEnd => Some(String::from_str("29")),
        TermSequence::OverlineStart => Some(String::from_str("53")),
        TermSequence::OverlineEnd => Some(String::from_str("55")),
        TermSequence::BlinkStart => Some(String::from_str("5")),
        TermSequence::BlinkEnd => Some(String::from_str("25")),
        TermSequence::ForegroundColor(color) => {
            let mut code = String::new();
            color.push_sgr_foreground(&mut code);
            Some(code)
        },
        TermSequence::ForegroundColorEnd => Some(String::from_str("39")),
        TermSequence::BackgroundColor(color) => {
            let mut code = String::new();
            color.push_sgr_background(&mut code);
            Some(code)
        },
        TermSequence::BackgroundColorEnd => Some(String::from_str("49")),
        TermSequence::ResetStyles => Some(String::from_str("0")),
        _ => None,
    }
}

/// An escape sequence: the SGR parameters between `opening` and `closing`.
pub open spec fn enclosed(opening: Seq<char>, code: Seq<char>, closing: Seq<char>) -> Seq<char> {
    opening + code + closing
}

/// Writes the SGR parameters between `opening` and `closing`.
pub fn enclose(opening: &str, code: &str, closing: &str) -> (r: String)
    ensures
        r@ == enclosed(opening@, code@, closing@),
{
    let mut out = String::from_str(opening);
    out.append(code);
    out.append(closing);
    out
}

} // verus!
