//! Builders of prompts. A builder holds the elements of a prompt in the order
//! in which they were added; rendering writes each element in a shell's syntax
//! and joins the results, without reordering or merging anything.

use vstd::prelude::*;
use vstd::string::StringExecFns;
use crate::colors::NamedColor;
use crate::context::PromptContext;
use crate::sequences::{TermSequence, ZshSequence};

pub use crate::sequences::TermType;
use crate::text::{flat_map, lemma_flat_map_step};
use crate::width::{clipped, display_width, measure_text};

verus! {

/// The elements written in Zsh's syntax and joined.
pub open spec fn zsh_rendered(items: Seq<ZshSequence>) -> Seq<char> {
    flat_map(items, |e: ZshSequence| e.zsh_text())
}

/// The elements written in Bash's syntax and joined.
pub open spec fn bash_rendered(items: Seq<ZshSequence>) -> Seq<char> {
    flat_map(items, |e: ZshSequence| e.bash_text())
}

/// The texts of the literal elements, joined in order.
pub open spec fn zsh_plain_text(items: Seq<ZshSequence>) -> Seq<char> {
    flat_map(items, |e: ZshSequence| e.literal_text())
}

/// What the elements put on the screen in the session `context`, joined.
pub open spec fn zsh_shown(items: Seq<ZshSequence>, context: PromptContext) -> Seq<char> {
    flat_map(items, |e: ZshSequence| e.shown_text(context))
}

/// The number of columns that the elements occupy on the screen in the
/// session `context`.
pub open spec fn zsh_measured(items: Seq<ZshSequence>, context: PromptContext) -> nat {
    display_width(zsh_shown(items, context))
}

/// Whether `after` is `before` with one more element at its end, a literal
/// whose text is `text`.
pub open spec fn zsh_literal_added(
    before: Seq<ZshSequence>,
    after: Seq<ZshSequence>,
    text: Seq<char>,
) -> bool {
    &&& after.len() == before.len() + 1
    &&& after == before.push(after.last())
    &&& after.last() is Literal
    &&& after.last().literal_text() == text
}

/// A prompt for Zsh, built by chaining calls that each add one element.
pub struct ZshPromptBuilder {
    sequences: Vec<ZshSequence>,
}

impl View for ZshPromptBuilder {
    type V = Seq<ZshSequence>;

    /// The elements of the prompt, in the order in which they were added.
    closed spec fn view(&self) -> Seq<ZshSequence> {
        self.sequences@
    }
}

impl Default for ZshPromptBuilder {
    fn default() -> (r: Self)
        ensures
            r@ == Seq::<ZshSequence>::empty(),
    {
        ZshPromptBuilder::new()
    }
}

impl ZshPromptBuilder {
    /// A prompt without elements.
    pub fn new() -> (r: Self)
        ensures
            r@ == Seq::<ZshSequence>::empty(),
    {
        ZshPromptBuilder { sequences: Vec::new() }
    }

    /// Adds an element at the end.
    pub fn add_sequence(self, sequence: ZshSequence) -> (r: Self)
        ensures
            r@ == self@.push(sequence),
    {
        let mut this = self;
        this.sequences.push(sequence);
        this
    }

    /// Adds literal text.
    pub fn str(self, text: &str) -> (r: Self)
        ensures
            zsh_literal_added(self@, r@, text@),
    {
        self.add_sequence(ZshSequence::Literal(String::from_str(text)))
    }

    /// Sets the foreground colour.
    pub fn color(self, color: NamedColor) -> (r: Self)
        ensures
            r@ == self@.push(ZshSequence::ForegroundColor(color)),
    {
        self.add_sequence(ZshSequence::ForegroundColor(color))
    }

    /// Sets the background colour.
    pub fn color_bg(self, color: NamedColor) -> (r: Self)
        ensures
            r@ == self@.push(ZshSequence::BackgroundColor(color)),
    {
        self.add_sequence(ZshSequence::BackgroundColor(color))
    }

    /// Resets every style and colour.
    pub fn reset_styles(self) -> (r: Self)
        ensures
            r@ == self@.push(ZshSequence::ResetStyles),
    {
        self.add_sequence(ZshSequence::ResetStyles)
    }

    /// Starts bold text.
    pub fn bold(self) -> (r: Self)
        ensures
            r@ == self@.push(ZshSequence::BoldStart),
    {
        self.add_sequence(ZshSequence::BoldStart)
    }

    /// Starts underlined text.
    pub fn underline(self) -> (r: Self)
        ensures
            r@ == self@.push(ZshSequence::UnderlineStart),
    {
        self.add_sequence(ZshSequence::UnderlineStart)
    }

    /// Starts standout text.
    pub fn standout(self) -> (r: Self)
        ensures
            r@ == self@.push(ZshSequence::StandoutStart),
    {
        self.add_sequence(ZshSequence::StandoutStart)
    }

    /// Returns to the default foreground colour.
    pub fn end_color(self) -> (r: Self)
        ensures
            r@ == self@.push(ZshSequence::ForegroundColorEnd),
    {
        self.add_sequence(ZshSequence::ForegroundColorEnd)
    }

    /// Returns to the default background colour.
    pub fn end_color_bg(self) -> (r: Self)
        ensures
            r@ == self@.push(ZshSequence::BackgroundColorEnd),
    {
        self.add_sequence(ZshSequence::BackgroundColorEnd)
    }

    /// Ends bold text.
    pub fn end_bold(self) -> (r: Self)
        ensures
            r@ == self@.push(ZshSequence::BoldEnd),
    {
        self.add_sequence(ZshSequence::BoldEnd)
    }

    /// Ends underlined text.
    pub fn end_underline(self) -> (r: Self)
        ensures
            r@ == self@.push(ZshSequence::UnderlineEnd),
    {
        self.add_sequence(ZshSequence::UnderlineEnd)
    }

    /// Ends standout text.
    pub fn end_standout(self) -> (r: Self)
        ensures
            r@ == self@.push(ZshSequence::StandoutEnd),
    {
        self.add_sequence(ZshSequence::StandoutEnd)
    }

    /// Adds the name of the user.
    pub fn username(self) -> (r: Self)
        ensures
            r@ == self@.push(ZshSequence::Username),
    {
        self.add_sequence(ZshSequence::Username)
    }

    /// Adds the short name of the host.
    pub fn hostname_short(self) -> (r: Self)
        ensures
            r@ == self@.push(ZshSequence::HostnameShort),
    {
        self.add_sequence(ZshSequence::HostnameShort)
    }

    /// Adds the working directory, in full.
    pub fn current_dir_full(self) -> (r: Self)
        ensures
            r@ == self@.push(ZshSequence::CurrentDirectoryFull),
    {
        self.add_sequence(ZshSequence::CurrentDirectoryFull)
    }

    /// Adds the working directory, with the home directory written as `~`.
    pub fn current_dir_tilde(self) -> (r: Self)
        ensures
            r@ == self@.push(ZshSequence::CurrentDirectoryTilde),
    {
        self.add_sequence(ZshSequence::CurrentDirectoryTilde)
    }

    /// Adds the sign that tells the superuser from other users.
    pub fn privileged_indicator(self) -> (r: Self)
        ensures
            r@ == self@.push(ZshSequence::PrivilegedIndicator),
    {
        self.add_sequence(ZshSequence::PrivilegedIndicator)
    }

    /// Adds a line break.
    pub fn newline(self) -> (r: Self)
        ensures
            r@ == self@.push(ZshSequence::Newline),
    {
        self.add_sequence(ZshSequence::Newline)
    }

    /// Adds the elements of `other`, in their order, after those of `self`.
    /// Both builders are consumed: the elements move into the result.
    pub fn connect(self, other: Self) -> (r: Self)
        ensures
            r@ == self@ + other@,
    {
        let mut this = self;
        let mut rest = other;
        this.sequences.append(&mut rest.sequences);
        this
    }

    /// The prompt in Zsh's syntax: every element written by
    /// `ZshSequence::to_string`, in order.
    pub fn build(&self) -> (r: String)
        ensures
            r@ == zsh_rendered(self@),
    {
        let ghost f = |e: ZshSequence| e.zsh_text();
        let mut out = String::new();
        let n = self.sequences.len();
        for i in 0..n
            invariant
                n == self.sequences.len(),
                f == (|e: ZshSequence| e.zsh_text()),
                out@ == flat_map(self@.take(i as int), f),
        {
            proof {
                lemma_flat_map_step(self@, i as int, f);
            }
            let piece = self.sequences[i].to_string();
            out.append(piece.as_str());
        }
        proof {
            assert(self@.take(n as int) == self@);
        }
        out
    }

    /// The prompt in Bash's syntax: every element written by
    /// `ZshSequence::bash`, in order.
    pub fn bash_build(&self) -> (r: String)
        ensures
            r@ == bash_rendered(self@),
    {
        let ghost f = |e: ZshSequence| e.bash_text();
        let mut out = String::new();
        let n = self.sequences.len();
        for i in 0..n
            invariant
                n == self.sequences.len(),
                f == (|e: ZshSequence| e.bash_text()),
                out@ == flat_map(self@.take(i as int), f),
        {
            proof {
                lemma_flat_map_step(self@, i as int, f);
            }
            let piece = self.sequences[i].bash();
            out.append(piece.as_str());
        }
        proof {
            assert(self@.take(n as int) == self@);
        }
        out
    }

    /// The literal text of the prompt: the texts of its literal elements,
    /// joined in order. Styles, colours and placeholders leave no trace.
    pub fn text(&self) -> (r: String)
        ensures
            r@ == zsh_plain_text(self@),
    {
        let ghost f = |e: ZshSequence| e.literal_text();
        let mut out = String::new();
        let n = self.sequences.len();
        for i in 0..n
            invariant
                n == self.sequences.len(),
                f == (|e: ZshSequence| e.literal_text()),
                out@ == flat_map(self@.take(i as int), f),
        {
            proof {
                lemma_flat_map_step(self@, i as int, f);
            }
            match &self.sequences[i] {
                ZshSequence::Literal(s) => {
                    out.append(s.as_str());
                },
                _ => {
                    assert(out@ + Seq::<char>::empty() == out@);
                },
            }
        }
        proof {
            assert(self@.take(n as int) == self@);
        }
        out
    }

    /// What the prompt puts on the screen in the session `context`: literal
    /// text and the session's values, without any style or colour.
    pub fn raw_text(&self, context: &PromptContext) -> (r: String)
        ensures
            r@ == zsh_shown(self@, *context),
    {
        let ghost f = |e: ZshSequence| e.shown_text(*context);
        let mut out = String::new();
        let n = self.sequences.len();
        for i in 0..n
            invariant
                n == self.sequences.len(),
                f == (|e: ZshSequence| e.shown_text(*context)),
                out@ == flat_map(self@.take(i as int), f),
        {
            proof {
                lemma_flat_map_step(self@, i as int, f);
            }
            let piece = self.sequences[i].raw_text(context);
            out.append(piece.as_str());
        }
        proof {
            assert(self@.take(n as int) == self@);
        }
        out
    }

    /// The number of terminal columns that the prompt occupies in the
    /// session `context`. Widths are added up over the whole prompt, line
    /// breaks included, which take no column themselves.
    pub fn len(&self, context: &PromptContext) -> (w: usize)
        ensures
            w == clipped(zsh_measured(self@, *context)),
    {
        let raw = self.raw_text(context);
        measure_text(raw.as_str())
    }

    /// Whether the prompt occupies no column at all.
    pub fn is_empty(&self, context: &PromptContext) -> (r: bool)
        ensures
            r == (zsh_measured(self@, *context) == 0),
    {
        self.len(context) == 0
    }
}

/// The elements written in the syntax of `target` and joined.
pub open spec fn rendered(items: Seq<TermSequence>, target: TermType) -> Seq<char> {
    flat_map(items, |e: TermSequence| e.shell_text(target))
}

/// The texts of the literal elements, joined in order.
pub open spec fn plain_text(items: Seq<TermSequence>) -> Seq<char> {
    flat_map(items, |e: TermSequence| e.literal_text())
}

/// What the elements put on the screen of `target` in the session
/// `context`, joined.
pub open spec fn shown(
    items: Seq<TermSequence>,
    target: TermType,
    context: PromptContext,
) -> Seq<char> {
    flat_map(items, |e: TermSequence| e.shown_text(target, context))
}

/// The number of columns that the elements occupy on the screen of `target`
/// in the session `context`.
pub open spec fn measured(items: Seq<TermSequence>, target: TermType, context: PromptContext) -> nat {
    display_width(shown(items, target, context))
}

/// Whether `after` is `before` with one more element at its end, a literal
/// whose text is `text`.
pub open spec fn literal_added(
    before: Seq<TermSequence>,
    after: Seq<TermSequence>,
    text: Seq<char>,
) -> bool {
    &&& after.len() == before.len() + 1
    &&& after == before.push(after.last())
    &&& after.last() is Literal
    &&& after.last().literal_text() == text
}

/// Writes the elements in the syntax of `target` and joins them.
pub fn render(sequences: &[TermSequence], target: TermType) -> (r: String)
    ensures
        r@ == rendered(sequences@, target),
{
    let ghost f = |e: TermSequence| e.shell_text(target);
    let mut out = String::new();
    let n = sequences.len();
    for i in 0..n
        invariant
            n == sequences.len(),
            f == (|e: TermSequence| e.shell_text(target)),
            out@ == flat_map(sequences@.take(i as int), f),
    {
        proof {
            lemma_flat_map_step(sequences@, i as int, f);
        }
        let piece = sequences[i].to_shell_string(target);
        out.append(piece.as_str());
    }
    proof {
        assert(sequences@.take(n as int) == sequences@);
    }
    out
}

/// Joins the texts of the literal elements.
pub fn extract_text(sequences: &[TermSequence]) -> (r: String)
    ensures
        r@ == plain_text(sequences@),
{
    let ghost f = |e: TermSequence| e.literal_text();
    let mut out = String::new();
    let n = sequences.len();
    for i in 0..n
        invariant
            n == sequences.len(),
            f == (|e: TermSequence| e.literal_text()),
            out@ == flat_map(sequences@.take(i as int), f),
    {
        proof {
            lemma_flat_map_step(sequences@, i as int, f);
        }
        match &sequences[i] {
            TermSequence::Literal(s) => {
                out.append(s.as_str());
            },
            _ => {
                assert(out@ + Seq::<char>::empty() == out@);
            },
        }
    }
    proof {
        assert(sequences@.take(n as int) == sequences@);
    }
    out
}

/// Joins what the elements put on the screen of `target` in the session
/// `context`.
pub fn resolve(sequences: &[TermSequence], target: TermType, context: &PromptContext) -> (r: String)
    ensures
        r@ == shown(sequences@, target, *context),
{
    let ghost f = |e: TermSequence| e.shown_text(target, *context);
    let mut out = String::new();
    let n = sequences.len();
    for i in 0..n
        invariant
            n == sequences.len(),
            f == (|e: TermSequence| e.shown_text(target, *context)),
            out@ == flat_map(sequences@.take(i as int), f),
    {
        proof {
            lemma_flat_map_step(sequences@, i as int, f);
        }
        let piece = sequences[i].raw_text(target, context);
        out.append(piece.as_str());
    }
    proof {
        assert(sequences@.take(n as int) == sequences@);
    }
    out
}

/// The number of columns that the elements occupy on the screen of `target`
/// in the session `context`, or `usize::MAX` where the number does not fit.
pub fn measure(sequences: &[TermSequence], target: TermType, context: &PromptContext) -> (w: usize)
    ensures
        w == clipped(measured(sequences@, target, *context)),
{
    let raw = resolve(sequences, target, context);
    measure_text(raw.as_str())
}

/// A prompt for one shell, built by calls that each add one element at the
/// end and hand the builder back, so that they can be chained.
pub struct TermPromptBuilder {
    sequences: Vec<TermSequence>,
    term_type: TermType,
}

impl View for TermPromptBuilder {
    type V = Seq<TermSequence>;

    /// The elements of the prompt, in the order in which they were added.
    closed spec fn view(&self) -> Seq<TermSequence> {
        self.sequences@
    }
}

impl TermPromptBuilder {
    /// The shell that the prompt is written for.
    pub closed spec fn target(&self) -> TermType {
        self.term_type
    }

    /// Whether `self` is `before` with `element` added at its end.
    pub open spec fn extends(&self, before: &Self, element: TermSequence) -> bool {
        &&& self@ == before@.push(element)
        &&& self.target() == before.target()
    }

    /// A prompt for `term_type`, without elements.
    pub fn new(term_type: TermType) -> (r: Self)
        ensures
            r@ == Seq::<TermSequence>::empty(),
            r.target() == term_type,
    {
        TermPromptBuilder { sequences: Vec::new(), term_type }
    }

    /// The shell that the prompt is written for.
    pub fn term_type(&self) -> (r: TermType)
        ensures
            r == self.target(),
    {
        self.term_type
    }

    /// Adds an element at the end.
    pub fn add_sequence(&mut self, sequence: TermSequence) -> (r: &mut Self)
        ensures
            r.extends(old(self), sequence),
            *final(self) == *final(r),
    {
        self.sequences.push(sequence);
        self
    }

    /// Adds literal text.
    pub fn str(&mut self, text: &str) -> (r: &mut Self)
        ensures
            literal_added(old(self)@, r@, text@),
            r.target() == old(self).target(),
            *final(self) == *final(r),
    {
        self.sequences.push(TermSequence::Literal(String::from_str(text)));
        self
    }

    /// Sets the foreground colour.
    pub fn color(&mut self, color: NamedColor) -> (r: &mut Self)
        ensures
            r.extends(old(self), TermSequence::ForegroundColor(color)),
            *final(self) == *final(r),
    {
        self.add_sequence(TermSequence::ForegroundColor(color))
    }

    /// Sets the background colour.
    pub fn color_bg(&mut self, color: NamedColor) -> (r: &mut Self)
        ensures
            r.extends(old(self), TermSequence::BackgroundColor(color)),
            *final(self) == *final(r),
    {
        self.add_sequence(TermSequence::BackgroundColor(color))
    }

    /// Resets every style and colour.
    pub fn reset_styles(&mut self) -> (r: &mut Self)
        ensures
            r.extends(old(self), TermSequence::ResetStyles),
            *final(self) == *final(r),
    {
        self.add_sequence(TermSequence::ResetStyles)
    }

    /// Starts bold text.
    pub fn bold(&mut self) -> (r: &mut Self)
        ensures
            r.extends(old(self), TermSequence::BoldStart),
            *final(self) == *final(r),
    {
        self.add_sequence(TermSequence::BoldStart)
    }

    /// Starts underlined text.
    pub fn underline(&mut self) -> (r: &mut Self)
        ensures
            r.extends(old(self), TermSequence::UnderlineStart),
            *final(self) == *final(r),
    {
        self.add_sequence(TermSequence::UnderlineStart)
    }

    /// Starts standout text.
    pub fn standout(&mut self) -> (r: &mut Self)
        ensures
            r.extends(old(self), TermSequence::StandoutStart),
            *final(self) == *final(r),
    {
        self.add_sequence(TermSequence::StandoutStart)
    }

    /// Returns to the default foreground colour.
    pub fn end_color(&mut self) -> (r: &mut Self)
        ensures
            r.extends(old(self), TermSequence::ForegroundColorEnd),
            *final(self) == *final(r),
    {
        self.add_sequence(TermSequence::ForegroundColorEnd)
    }

    /// Returns to the default background colour.
    pub fn end_color_bg(&mut self) -> (r: &mut Self)
        ensures
            r.extends(old(self), TermSequence::BackgroundColorEnd),
            *final(self) == *final(r),
    {
        self.add_sequence(TermSequence::BackgroundColorEnd)
    }

    /// Ends bold text.
    pub fn end_bold(&mut self) -> (r: &mut Self)
        ensures
            r.extends(old(self), TermSequence::BoldEnd),
            *final(self) == *final(r),
    {
        self.add_sequence(TermSequence::BoldEnd)
    }

    /// Ends underlined text.
    pub fn end_underline(&mut self) -> (r: &mut Self)
        ensures
            r.extends(old(self), TermSequence::UnderlineEnd),
            *final(self) == *final(r),
    {
        self.add_sequence(TermSequence::UnderlineEnd)
    }

    /// Ends standout text.
    pub fn end_standout(&mut self) -> (r: &mut Self)
        ensures
            r.extends(old(self), TermSequence::StandoutEnd),
            *final(self) == *final(r),
    {
        self.add_sequence(TermSequence::StandoutEnd)
    }

    /// Adds the name of the user.
    pub fn username(&mut self) -> (r: &mut Self)
        ensures
            r.extends(old(self), TermSequence::Username),
            *final(self) == *final(r),
    {
        self.add_sequence(TermSequence::Username)
    }

    /// Adds the short name of the host.
    pub fn hostname_short(&mut self) -> (r: &mut Self)
        ensures
            r.extends(old(self), TermSequence::HostnameShort),
            *final(self) == *final(r),
    {
        self.add_sequence(TermSequence::HostnameShort)
    }

    /// Adds the working directory, in full.
    pub fn current_dir_full(&mut self) -> (r: &mut Self)
        ensures
            r.extends(old(self), TermSequence::CurrentDirectoryFull),
            *final(self) == *final(r),
    {
        self.add_sequence(TermSequence::CurrentDirectoryFull)
    }

    /// Adds the working directory, with the home directory written as `~`.
    pub fn current_dir_tilde(&mut self) -> (r: &mut Self)
        ensures
            r.extends(old(self), TermSequence::CurrentDirectoryTilde),
            *final(self) == *final(r),
    {
        self.add_sequence(TermSequence::CurrentDirectoryTilde)
    }

    /// Adds the sign that tells the superuser from other users.
    pub fn privileged_indicator(&mut self) -> (r: &mut Self)
        ensures
            r.extends(old(self), TermSequence::PrivilegedIndicator),
            *final(self) == *final(r),
    {
        self.add_sequence(TermSequence::PrivilegedIndicator)
    }

    /// Adds a line break.
    pub fn newline(&mut self) -> (r: &mut Self)
        ensures
            r.extends(old(self), TermSequence::Newline),
            *final(self) == *final(r),
    {
        self.add_sequence(TermSequence::Newline)
    }

    /// Adds the elements of `other`, in their order, after those of `self`.
    /// `other` is consumed: its elements move into `self`, whose shell stays.
    pub fn connect(&mut self, other: Self) -> (r: &mut Self)
        ensures
            r@ == old(self)@ + other@,
            r.target() == old(self).target(),
            *final(self) == *final(r),
    {
        let mut rest = other;
        self.sequences.append(&mut rest.sequences);
        self
    }

    /// Moves the elements of `other`, in their order, behind those of
    /// `self`, and leaves `other` without elements. The shell of each stays.
    pub fn take_from(&mut self, other: &mut Self) -> (r: &mut Self)
        ensures
            r@ == old(self)@ + old(other)@,
            r.target() == old(self).target(),
            final(other)@ == Seq::<TermSequence>::empty(),
            final(other).target() == old(other).target(),
            *final(self) == *final(r),
    {
        self.sequences.append(&mut other.sequences);
        self
    }

    /// The prompt in the syntax of `target`, whatever shell the builder was
    /// made for.
    pub fn render(&self, target: TermType) -> (r: String)
        ensures
            r@ == rendered(self@, target),
    {
        render(self.sequences.as_slice(), target)
    }

    /// The prompt in the syntax of its shell.
    pub fn build(&self) -> (r: String)
        ensures
            r@ == rendered(self@, self.target()),
    {
        render(self.sequences.as_slice(), self.term_type)
    }

    /// The literal text of the prompt: the texts of its literal elements,
    /// joined in order.
    pub fn text(&self) -> (r: String)
        ensures
            r@ == plain_text(self@),
    {
        extract_text(self.sequences.as_slice())
    }

    /// What the prompt puts on the screen in the session `context`.
    pub fn raw_text(&self, context: &PromptContext) -> (r: String)
        ensures
            r@ == shown(self@, self.target(), *context),
    {
        resolve(self.sequences.as_slice(), self.term_type, context)
    }

    /// The number of terminal columns that the prompt occupies in the
    /// session `context`, or `usize::MAX` where the number does not fit.
    /// Widths are added up over the whole prompt, line breaks included,
    /// which take no column themselves.
    pub fn len(&self, context: &PromptContext) -> (w: usize)
        ensures
            w == clipped(measured(self@, self.target(), *context)),
    {
        measure(self.sequences.as_slice(), self.term_type, context)
    }

    /// Whether the prompt occupies no column at all.
    pub fn is_empty(&self, context: &PromptContext) -> (r: bool)
        ensures
            r == (measured(self@, self.target(), *context) == 0),
    {
        self.len(context) == 0
    }
}

} // verus!
