//! A prompt as a terminal shows it: escape sequences written as they are and
//! the values of the session filled in.

use vstd::prelude::*;
use vstd::string::StringExecFns;
use crate::context::PromptContext;
use crate::sequences::translator::{enclose, enclosed, sgr_code, sgr_code_of};
use crate::sequences::{TermSequence, TermType};
use crate::text::{flat_map, lemma_flat_map_step};

verus! {

/// The element as it is sent to a terminal in the session `context`: the
/// escape sequence of a style or a colour, the text of a literal, the
/// session's value for a placeholder. The sign of an unprivileged user is `$`.
pub open spec fn terminal_text(element: TermSequence, context: PromptContext) -> Seq<char> {
    match sgr_code(element) {
        Some(code) => enclosed("\x1b["@, code, "m"@),
        None => element.shown_text(TermType::Bash, context),
    }
}

/// The elements as they are sent to a terminal, joined.
pub open spec fn printed(items: Seq<TermSequence>, context: PromptContext) -> Seq<char> {
    flat_map(items, |e: TermSequence| terminal_text(e, context))
}

/// Writes the prompt as it is sent to a terminal in the session `context`,
/// with nothing left for a shell to expand.
pub fn print(sequences: &[TermSequence], context: &PromptContext) -> (r: String)
    ensures
        r@ == printed(sequences@, *context),
{
    let ghost f = |e: TermSequence| terminal_text(e, *context);
    let mut result = String::new();
    let n = sequences.len();
    for i in 0..n
        invariant
            n == sequences.len(),
            f == (|e: TermSequence| terminal_text(e, *context)),
            result@ == flat_map(sequences@.take(i as int), f),
    {
        proof {
            lemma_flat_map_step(sequences@, i as int, f);
        }
        let piece = match sgr_code_of(&sequences[i]) {
            Some(code) => enclose("\x1b[", code.as_str(), "m"),
            None => sequences[i].raw_text(TermType::Bash, context),
        };
        result.append(piece.as_str());
    }
    proof {
        assert(sequences@.take(n as int) == sequences@);
    }
    result
}

} // verus!
