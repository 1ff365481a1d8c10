//! Zsh: styles and named colours are prompt escapes of the shell, every other
//! escape sequence stands between `%{` and `%}`, which tell the line editor
//! that it takes no room, and the session's values are prompt escapes too.

use vstd::prelude::*;
use vstd::string::StringExecFns;
use crate::sequences::TermSequence;
use crate::sequences::translator::{enclose, enclosed, sgr_code, sgr_code_of};
use crate::text::{flat_map, lemma_flat_map_step};

verus! {

/// One character of literal text as Zsh must see it: a percent sign is
/// doubled, so that the shell does not read it as the start of an escape, and
/// a character outside ASCII is marked as one column wide, so that the shell
/// does not count its bytes.
pub open spec fn zsh_char(c: char) -> Seq<char> {
    if c == '%' {
        "%%"@
    } else if c as u32 <= 127 {
        seq![c]
    } else {
        "%{%G"@ + seq![c] + "%}"@
    }
}

/// Literal text as Zsh must see it.
pub open spec fn zsh_literal(s: Seq<char>) -> Seq<char> {
    flat_map(s, |c: char| zsh_char(c))
}

/// The element as Zsh writes it in a prompt.
pub open spec fn zsh_text(element: TermSequence) -> Seq<char> {
    match element {
        TermSequence::Percent => "%%%"@,
        TermSequence::BoldStart => "%B"@,
        TermSequence::BoldEnd => "%b"@,
        TermSequence::UnderlineStart => "%U"@,
        TermSequence::UnderlineEnd => "%u"@,
        TermSequence::StandoutStart => "%S"@,
        TermSequence::StandoutEnd => "%s"@,
        TermSequence::ForegroundColor(color) => if color is FullColor {
            enclosed("%{\x1b["@, color.sgr_foreground(), "m%}"@)
        } else {
            enclosed("%F{"@, color.term_token(), "}"@)
        },
        TermSequence::ForegroundColorEnd => "%f"@,
        TermSequence::BackgroundColor(color) => if color is FullColor {
            enclosed("%{\x1b["@, color.sgr_background(), "m%}"@)
        } else {
            enclosed("%K{"@, color.term_token(), "}"@)
        },
        TermSequence::BackgroundColorEnd => "%k"@,
        TermSequence::Username => "%n"@,
        TermSequence::HostnameShort => "%m"@,
        TermSequence::CurrentDirectoryFull => "%/"@,
        TermSequence::CurrentDirectoryTilde => "%~"@,
        TermSequence::PrivilegedIndicator => "%#"@,
        TermSequence::Newline => "\n"@,
        TermSequence::Literal(s) => zsh_literal(s@),
        _ => match sgr_code(element) {
            Some(code) => enclosed("%{\x1b["@, code, "m%}"@),
            None => Seq::empty(),
        },
    }
}

/// Appends literal text as Zsh must see it.
pub fn push_zsh_literal(out: &mut String, text: &str)
    ensures
        final(out)@ == old(out)@ + zsh_literal(text@),
{
    let ghost before = out@;
    let ghost f = |c: char| zsh_char(c);
    for c in it: text.chars()
        invariant
            it.seq() == text@,
            f == (|c: char| zsh_char(c)),
            out@ == before + flat_map(text@.take(it.index()), f),
    {
        let ghost sofar = out@;
        proof {
            lemma_flat_map_step(text@, it.index(), f);
        }
        if c == '%' {
            out.append("%%");
        } else if c as u32 <= 127 {
            out.push(c);
        } else {
            out.append("%{%G");
            out.push(c);
            out.append("%}");
        }
        proof {
            assert(out@ =~= sofar + zsh_char(c));
            assert(out@ =~= before + flat_map(text@.take(it.index() + 1), f));
        }
    }
    proof {
        assert(text@.take(text@.len() as int) == text@);
    }
}

/// Writes the element in Zsh's prompt syntax.
pub fn to_zsh_string(sequence: &TermSequence) -> (r: String)
    ensures
        r@ == zsh_text(*sequence),
{
    match sequence {
        TermSequence::Percent => String::from_str("%%%"),
        TermSequence::BoldStart => String::from_str("%B"),
        TermSequence::BoldEnd => String::from_str("%b"),
        TermSequence::UnderlineStart => String::from_str("%U"),
        TermSequence::UnderlineEnd => String::from_str("%u"),
        TermSequence::StandoutStart => String::from_str("%S"),
        TermSequence::StandoutEnd => String::from_str("%s"),
        TermSequence::ForegroundColor(color) => match color {
            crate::colors::NamedColor::FullColor(_) => {
                let mut code = String::new();
                color.push_sgr_foreground(&mut code);
                enclose("%{\x1b[", code.as_str(), "m%}")
            },
            _ => {
                let token = color.to_term_string();
                enclose("%F{", token.as_str(), "}")
            },
        },
        TermSequence::ForegroundColorEnd => String::from_str("%f"),
        TermSequence::BackgroundColor(color) => match color {
            crate::colors::NamedColor::FullColor(_) => {
                let mut code = String::new();
                color.push_sgr_background(&mut code);
                enclose("%{\x1b[", code.as_str(), "m%}")
            },
            _ => {
                let token = color.to_term_string();
                enclose("%K{", token.as_str(), "}")
            },
        },
        TermSequence::BackgroundColorEnd => String::from_str("%k"),
        TermSequence::Username => String::from_str("%n"),
        TermSequence::HostnameShort => String::from_str("%m"),
        TermSequence::CurrentDirectoryFull => String::from_str("%/"),
        TermSequence::CurrentDirectoryTilde => String::from_str("%~"),
        TermSequence::PrivilegedIndicator => String::from_str("%#"),
        TermSequence::Newline => String::from_str("\n"),
        TermSequence::Literal(s) => {
            let mut out = String::new();
            push_zsh_literal(&mut out, s.as_str());
            out
        },
        _ => match sgr_code_of(sequence) {
            Some(code) => enclose("%{\x1b[", code.as_str(), "m%}"),
            None => String::new(),
        },
    }
}

} // verus!
