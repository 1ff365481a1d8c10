//! The number of terminal columns that a text occupies: escape sequences are
//! removed first, then the widths of the remaining characters are added up.

use vstd::prelude::*;
use vstd::string::StringExecFns;

verus! {

/// What `unicode_width::UnicodeWidthChar::width` returns for a character.
pub uninterp spec fn unicode_width_of(c: char) -> Option<usize>;

/// `UnicodeWidthChar::width`: the number of columns of a character, or `None`
/// for a control character. The result depends on the character alone and is
/// known here only by the name `unicode_width_of`.
#[verifier::external_body]
fn unicode_char_width(c: char) -> (w: Option<usize>)
    ensures
        w == unicode_width_of(c),
{
    unicode_width::UnicodeWidthChar::width(c)
}

/// What `regex::Regex::replace_all` returns when the regular expression
/// compiled from `pattern` is applied to `haystack` with the replacement
/// `replacement`; `None` when `regex::Regex::new` rejects the pattern.
pub uninterp spec fn regex_replaced(
    pattern: Seq<char>,
    haystack: Seq<char>,
    replacement: Seq<char>,
) -> Option<Seq<char>>;

/// `Regex::new` followed by `Regex::replace_all`: every match of the pattern
/// in the haystack is replaced. Both depend on their arguments alone; the
/// outcome is known here only by the name `regex_replaced`.
#[verifier::external_body]
fn regex_replace_all(pattern: &str, haystack: &str, replacement: &str) -> (out: Option<String>)
    ensures
        match out {
            Some(s) => regex_replaced(pattern@, haystack@, replacement@) == Some(s@),
            None => regex_replaced(pattern@, haystack@, replacement@) is None,
        },
{
    match regex::Regex::new(pattern) {
        Ok(re) => Some(re.replace_all(haystack, replacement).into_owned()),
        Err(_) => None,
    }
}

/// The escape sequences that are removed before a text is measured: control
/// sequences, which are ESC or U+009B, a `[`, parameters and a final
/// character, and the sequences that designate a character set, which are
/// ESC or U+009B, a parenthesis and a letter or digit.
pub const ESCAPE_PATTERN: &'static str =
    r"[\u001b\u009b]\[[()#;?]*(?:[0-9]{1,4}(?:;[0-9]{0,4})*)?[0-9A-ORZcf-nqry=><]|[\u001b\u009b][()][A-Z0-9]";

/// Whether `c` starts an escape sequence: ESC or U+009B.
pub open spec fn is_escape_introducer(c: char) -> bool {
    c == '\u{1b}' || c == '\u{9b}'
}

/// Whether the text holds a character that starts an escape sequence.
pub open spec fn has_escape_introducer(s: Seq<char>) -> bool {
    exists|i: int| 0 <= i < s.len() && is_escape_introducer(#[trigger] s[i])
}

/// The text without its escape sequences. A text that holds no introducer is
/// left as it is; any other is what the escape pattern leaves of it (and is
/// left as it is, should the pattern not compile).
pub open spec fn visible_text(raw: Seq<char>) -> Seq<char> {
    if has_escape_introducer(raw) {
        match regex_replaced(ESCAPE_PATTERN@, raw, ""@) {
            Some(stripped) => stripped,
            None => raw,
        }
    } else {
        raw
    }
}

/// Whether `c` is a printing ASCII character, from the space to the tilde.
pub open spec fn is_printable_ascii(c: char) -> bool {
    ' ' <= c <= '~'
}

/// The number of columns of one character: 1 for printing ASCII, else the
/// width that Unicode gives it, 0 where it has none.
pub open spec fn char_cells(c: char) -> nat {
    if is_printable_ascii(c) {
        1
    } else {
        match unicode_width_of(c) {
            Some(n) => n as nat,
            None => 0,
        }
    }
}

/// The number of columns of a text: the sum of those of its characters.
pub open spec fn text_width(s: Seq<char>) -> nat
    decreases s.len(),
{
    if s.len() == 0 {
        0
    } else {
        text_width(s.drop_last()) + char_cells(s.last())
    }
}

/// The number of columns of a text once its escape sequences are removed.
pub open spec fn display_width(raw: Seq<char>) -> nat {
    text_width(visible_text(raw))
}

/// `n` as a `usize`, or `usize::MAX` where it does not fit.
pub open spec fn clipped(n: nat) -> usize {
    if n <= usize::MAX {
        n as usize
    } else {
        usize::MAX
    }
}

/// A text of printing ASCII characters is as wide as it is long.
pub proof fn lemma_text_width_printable_ascii(s: Seq<char>)
    requires
        forall|i: int| 0 <= i < s.len() ==> is_printable_ascii(#[trigger] s[i]),
    ensures
        text_width(s) == s.len(),
    decreases s.len(),
{
    if s.len() > 0 {
        lemma_text_width_printable_ascii(s.drop_last());
        assert(is_printable_ascii(s[s.len() - 1]));
    }
}

/// The number of columns of one character.
pub fn char_width(c: char) -> (w: usize)
    ensures
        w == char_cells(c),
{
    if ' ' <= c && c <= '~' {
        1
    } else {
        match unicode_char_width(c) {
            Some(n) => n,
            None => 0,
        }
    }
}

/// The number of columns of a text in which no escape sequence is left: the
/// sum of the widths of its characters, or `usize::MAX` where the sum does
/// not fit.
pub fn visible_width(text: &str) -> (w: usize)
    ensures
        w == clipped(text_width(text@)),
{
    let mut total: usize = 0;
    for c in it: text.chars()
        invariant
            it.seq() == text@,
            total == clipped(text_width(text@.take(it.index()))),
    {
        proof {
            assert(text@.take(it.index() + 1).drop_last() == text@.take(it.index()));
        }
        total = total.saturating_add(char_width(c));
    }
    proof {
        assert(text@.take(text@.len() as int) == text@);
    }
    total
}

/// Whether the text holds ESC or U+009B.
pub fn contains_escape_introducer(text: &str) -> (r: bool)
    ensures
        r == has_escape_introducer(text@),
{
    let mut found = false;
    for c in it: text.chars()
        invariant
            it.seq() == text@,
            found == has_escape_introducer(text@.take(it.index())),
    {
        proof {
            let before = text@.take(it.index());
            let after = text@.take(it.index() + 1);
            if has_escape_introducer(before) {
                let i = choose|i: int| 0 <= i < before.len() && is_escape_introducer(#[trigger] before[i]);
                assert(after[i] == before[i]);
            }
            if is_escape_introducer(c) {
                assert(after[it.index()] == c);
            }
            if has_escape_introducer(after) {
                let i = choose|i: int| 0 <= i < after.len() && is_escape_introducer(#[trigger] after[i]);
                if i < it.index() {
                    assert(before[i] == after[i]);
                }
            }
        }
        if c == '\u{1b}' || c == '\u{9b}' {
            found = true;
        }
    }
    proof {
        assert(text@.take(text@.len() as int) == text@);
    }
    found
}

/// Removes the escape sequences from a text.
pub fn strip_escapes(raw: &str) -> (r: String)
    ensures
        r@ == visible_text(raw@),
{
    if contains_escape_introducer(raw) {
        match regex_replace_all(ESCAPE_PATTERN, raw, "") {
            Some(stripped) => stripped,
            None => String::from_str(raw),
        }
    } else {
        String::from_str(raw)
    }
}

/// The number of columns that a text occupies on a terminal: its escape
/// sequences take none, each other character its own width.
pub fn measure_text(raw: &str) -> (w: usize)
    ensures
        w == clipped(display_width(raw@)),
{
    let stripped = strip_escapes(raw);
    visible_width(stripped.as_str())
}

} // verus!
