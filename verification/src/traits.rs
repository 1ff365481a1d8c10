//! Zsh styles and colours applied to a piece of text directly, and the
//! operations of a prompt builder as traits.

use vstd::prelude::*;
use crate::builder::{literal_added, measured, plain_text, rendered, shown, TermPromptBuilder};
use crate::colors::NamedColor;
use crate::context::PromptContext;
use crate::sequences::translator::{enclose, enclosed};
use crate::sequences::{TermSequence, TermType};
use crate::width::clipped;

verus! {

/// The text between an escape sequence with the SGR parameters `code` and
/// the escape sequence that resets every style.
pub open spec fn colored(code: Seq<char>, text: Seq<char>) -> Seq<char> {
    enclosed(enclosed("%{\x1b["@, code, "m%}"@), text, "%{\x1b[0m%}"@)
}

fn color_text(code: &str, text: &str) -> (out: String)
    ensures
        out@ == colored(code@, text@),
{
    let opening = enclose("%{\x1b[", code, "m%}");
    enclose(opening.as_str(), text, "%{\x1b[0m%}")
}

fn foreground_text(text: &str, r: u8, g: u8, b: u8) -> (out: String)
    ensures
        out@ == colored(NamedColor::FullColor((r, g, b)).sgr_foreground(), text@),
{
    let mut code = String::new();
    NamedColor::FullColor((r, g, b)).push_sgr_foreground(&mut code);
    color_text(code.as_str(), text)
}

fn background_text(text: &str, r: u8, g: u8, b: u8) -> (out: String)
    ensures
        out@ == colored(NamedColor::FullColor((r, g, b)).sgr_background(), text@),
{
    let mut code = String::new();
    NamedColor::FullColor((r, g, b)).push_sgr_background(&mut code);
    color_text(code.as_str(), text)
}

/// Text that can be wrapped in the Zsh prompt escapes of a style or a colour.
/// The text is taken as it is: it is neither escaped nor measured.
pub trait ColoredZshPrompt: Sized {
    /// The text that is wrapped.
    spec fn plain(&self) -> Seq<char>;

    /// The text in bold.
    fn bold(self) -> (r: String)
        ensures
            r@ == enclosed("%B"@, self.plain(), "%b"@),
    ;

    /// The text underlined.
    fn underline(self) -> (r: String)
        ensures
            r@ == enclosed("%U"@, self.plain(), "%u"@),
    ;

    /// The text in red.
    fn red(self) -> (r: String)
        ensures
            r@ == enclosed("%F{red}"@, self.plain(), "%f"@),
    ;

    /// The text in green.
    fn green(self) -> (r: String)
        ensures
            r@ == enclosed("%F{green}"@, self.plain(), "%f"@),
    ;

    /// The text in yellow.
    fn yellow(self) -> (r: String)
        ensures
            r@ == enclosed("%F{yellow}"@, self.plain(), "%f"@),
    ;

    /// The text in blue.
    fn blue(self) -> (r: String)
        ensures
            r@ == enclosed("%F{blue}"@, self.plain(), "%f"@),
    ;

    /// The text in white.
    fn white(self) -> (r: String)
        ensures
            r@ == enclosed("%F{white}"@, self.plain(), "%f"@),
    ;

    /// The text on a yellow background.
    fn on_yellow(self) -> (r: String)
        ensures
            r@ == enclosed("%K{yellow}"@, self.plain(), "%k"@),
    ;

    /// The text on a blue background.
    fn on_blue(self) -> (r: String)
        ensures
            r@ == enclosed("%K{blue}"@, self.plain(), "%k"@),
    ;

    /// The text in the 24-bit colour `(r, g, b)`, followed by a reset of
    /// every style.
    fn rgb_color(self, r: u8, g: u8, b: u8) -> (out: String)
        ensures
            out@ == colored(NamedColor::FullColor((r, g, b)).sgr_foreground(), self.plain()),
    ;

    /// The text on a background of the 24-bit colour `(r, g, b)`, followed
    /// by a reset of every style.
    fn on_rgb_color(self, r: u8, g: u8, b: u8) -> (out: String)
        ensures
            out@ == colored(NamedColor::FullColor((r, g, b)).sgr_background(), self.plain()),
    ;
}

impl<'a> ColoredZshPrompt for &'a str {
    open spec fn plain(&self) -> Seq<char> {
        (*self)@
    }

    fn bold(self) -> (r: String) {
        enclose("%B", self, "%b")
    }

    fn underline(self) -> (r: String) {
        enclose("%U", self, "%u")
    }

    fn red(self) -> (r: String) {
        enclose("%F{red}", self, "%f")
    }

    fn green(self) -> (r: String) {
        enclose("%F{green}", self, "%f")
    }

    fn yellow(self) -> (r: String) {
        enclose("%F{yellow}", self, "%f")
    }

    fn blue(self) -> (r: String) {
        enclose("%F{blue}", self, "%f")
    }

    fn white(self) -> (r: String) {
        enclose("%F{white}", self, "%f")
    }

    fn on_yellow(self) -> (r: String) {
        enclose("%K{yellow}", self, "%k")
    }

    fn on_blue(self) -> (r: String) {
        enclose("%K{blue}", self, "%k")
    }

    fn rgb_color(self, r: u8, g: u8, b: u8) -> (out: String) {
        foreground_text(self, r, g, b)
    }

    fn on_rgb_color(self, r: u8, g: u8, b: u8) -> (out: String) {
        background_text(self, r, g, b)
    }
}

impl ColoredZshPrompt for String {
    open spec fn plain(&self) -> Seq<char> {
        self@
    }

    fn bold(self) -> (r: String) {
        enclose("%B", self.as_str(), "%b")
    }

    fn underline(self) -> (r: String) {
        enclose("%U", self.as_str(), "%u")
    }

    fn red(self) -> (r: String) {
        enclose("%F{red}", self.as_str(), "%f")
    }

    fn green(self) -> (r: String) {
        enclose("%F{green}", self.as_str(), "%f")
    }

    fn yellow(self) -> (r: String) {
        enclose("%F{yellow}", self.as_str(), "%f")
    }

    fn blue(self) -> (r: String) {
        enclose("%F{blue}", self.as_str(), "%f")
    }

    fn white(self) -> (r: String) {
        enclose("%F{white}", self.as_str(), "%f")
    }

    fn on_yellow(self) -> (r: String) {
        enclose("%K{yellow}", self.as_str(), "%k")
    }

    fn on_blue(self) -> (r: String) {
        enclose("%K{blue}", self.as_str(), "%k")
    }

    fn rgb_color(self, r: u8, g: u8, b: u8) -> (out: String) {
        foreground_text(self.as_str(), r, g, b)
    }

    fn on_rgb_color(self, r: u8, g: u8, b: u8) -> (out: String) {
        background_text(self.as_str(), r, g, b)
    }
}

/// A builder of prompts for one shell: styles, colours and text are added at
/// the end, one element with each call.
pub trait ShellPromptBuilder: Send + Sync + Sized {
    /// The elements of the prompt, in the order in which they were added.
    spec fn elements(&self) -> Seq<TermSequence>;

    /// The shell that the prompt is written for.
    spec fn shell(&self) -> TermType;

    /// Whether `self` is `before` with `element` added at its end.
    open spec fn grown(&self, before: &Self, element: TermSequence) -> bool {
        &&& self.elements() == before.elements().push(element)
        &&& self.shell() == before.shell()
    }

    /// Adds literal text.
    fn add_str(&mut self, text: &str) -> (r: &mut Self)
        ensures
            literal_added(old(self).elements(), r.elements(), text@),
            r.shell() == old(self).shell(),
            *final(self) == *final(r),
    ;

    /// Sets the foreground colour.
    fn add_color(&mut self, color: NamedColor) -> (r: &mut Self)
        ensures
            r.grown(old(self), TermSequence::ForegroundColor(color)),
            *final(self) == *final(r),
    ;

    /// Sets the background colour.
    fn add_color_bg(&mut self, color: NamedColor) -> (r: &mut Self)
        ensures
            r.grown(old(self), TermSequence::BackgroundColor(color)),
            *final(self) == *final(r),
    ;

    /// Resets every style and colour.
    fn add_reset_styles(&mut self) -> (r: &mut Self)
        ensures
            r.grown(old(self), TermSequence::ResetStyles),
            *final(self) == *final(r),
    ;

    /// Starts bold text.
    fn add_bold(&mut self) -> (r: &mut Self)
        ensures
            r.grown(old(self), TermSequence::BoldStart),
            *final(self) == *final(r),
    ;

    /// Starts underlined text.
    fn add_underline(&mut self) -> (r: &mut Self)
        ensures
            r.grown(old(self), TermSequence::UnderlineStart),
            *final(self) == *final(r),
    ;

    /// Starts standout text.
    fn add_standout(&mut self) -> (r: &mut Self)
        ensures
            r.grown(old(self), TermSequence::StandoutStart),
            *final(self) == *final(r),
    ;

    /// Returns to the default foreground colour.
    fn add_end_color(&mut self) -> (r: &mut Self)
        ensures
            r.grown(old(self), TermSequence::ForegroundColorEnd),
            *final(self) == *final(r),
    ;

    /// Returns to the default background colour.
    fn add_end_color_bg(&mut self) -> (r: &mut Self)
        ensures
            r.grown(old(self), TermSequence::BackgroundColorEnd),
            *final(self) == *final(r),
    ;

    /// Ends bold text.
    fn add_end_bold(&mut self) -> (r: &mut Self)
        ensures
            r.grown(old(self), TermSequence::BoldEnd),
            *final(self) == *final(r),
    ;

    /// Ends underlined text.
    fn add_end_underline(&mut self) -> (r: &mut Self)
        ensures
            r.grown(old(self), TermSequence::UnderlineEnd),
            *final(self) == *final(r),
    ;

    /// Ends standout text.
    fn add_end_standout(&mut self) -> (r: &mut Self)
        ensures
            r.grown(old(self), TermSequence::StandoutEnd),
            *final(self) == *final(r),
    ;

    /// Moves the elements of `other`, in their order, behind those of
    /// `self`, and leaves `other` without elements.
    fn add_connect(&mut self, other: &mut Self) -> (r: &mut Self)
        ensures
            r.elements() == old(self).elements() + old(other).elements(),
            r.shell() == old(self).shell(),
            final(other).elements() == Seq::<TermSequence>::empty(),
            final(other).shell() == old(other).shell(),
            *final(self) == *final(r),
    ;

    /// The prompt in the syntax of its shell.
    fn build(&self) -> (r: String)
        ensures
            r@ == rendered(self.elements(), self.shell()),
    ;

    /// The literal text of the prompt.
    fn text(&self) -> (r: String)
        ensures
            r@ == plain_text(self.elements()),
    ;
}

impl ShellPromptBuilder for TermPromptBuilder {
    open spec fn elements(&self) -> Seq<TermSequence> {
        self@
    }

    open spec fn shell(&self) -> TermType {
        self.target()
    }

    fn add_str(&mut self, text: &str) -> (r: &mut Self) {
        TermPromptBuilder::str(self, text)
    }

    fn add_color(&mut self, color: NamedColor) -> (r: &mut Self) {
        TermPromptBuilder::color(self, color)
    }

    fn add_color_bg(&mut self, color: NamedColor) -> (r: &mut Self) {
        TermPromptBuilder::color_bg(self, color)
    }

    fn add_reset_styles(&mut self) -> (r: &mut Self) {
        TermPromptBuilder::reset_styles(self)
    }

    fn add_bold(&mut self) -> (r: &mut Self) {
        TermPromptBuilder::bold(self)
    }

    fn add_underline(&mut self) -> (r: &mut Self) {
        TermPromptBuilder::underline(self)
    }

    fn add_standout(&mut self) -> (r: &mut Self) {
        TermPromptBuilder::standout(self)
    }

    fn add_end_color(&mut self) -> (r: &mut Self) {
        TermPromptBuilder::end_color(self)
    }

    fn add_end_color_bg(&mut self) -> (r: &mut Self) {
        TermPromptBuilder::end_color_bg(self)
    }

    fn add_end_bold(&mut self) -> (r: &mut Self) {
        TermPromptBuilder::end_bold(self)
    }

    fn add_end_underline(&mut self) -> (r: &mut Self) {
        TermPromptBuilder::end_underline(self)
    }

    fn add_end_standout(&mut self) -> (r: &mut Self) {
        TermPromptBuilder::end_standout(self)
    }

    fn add_connect(&mut self, other: &mut Self) -> (r: &mut Self) {
        TermPromptBuilder::take_from(self, other)
    }

    fn build(&self) -> (r: String) {
        TermPromptBuilder::build(self)
    }

    fn text(&self) -> (r: String) {
        TermPromptBuilder::text(self)
    }
}

/// What a prompt builder adds of the session, and what the prompt shows of
/// it.
pub trait ZshSpecificBuilder: ShellPromptBuilder {
    /// Adds the name of the user.
    fn username(&mut self) -> (r: &mut Self)
        ensures
            r.grown(old(self), TermSequence::Username),
            *final(self) == *final(r),
    ;

    /// Adds the short name of the host.
    fn hostname_short(&mut self) -> (r: &mut Self)
        ensures
            r.grown(old(self), TermSequence::HostnameShort),
            *final(self) == *final(r),
    ;

    /// Adds the working directory, in full.
    fn current_dir_full(&mut self) -> (r: &mut Self)
        ensures
            r.grown(old(self), TermSequence::CurrentDirectoryFull),
            *final(self) == *final(r),
    ;

    /// Adds the working directory, with the home directory written as `~`.
    fn current_dir_tilde(&mut self) -> (r: &mut Self)
        ensures
            r.grown(old(self), TermSequence::CurrentDirectoryTilde),
            *final(self) == *final(r),
    ;

    /// Adds the sign that tells the superuser from other users.
    fn privileged_indicator(&mut self) -> (r: &mut Self)
        ensures
            r.grown(old(self), TermSequence::PrivilegedIndicator),
            *final(self) == *final(r),
    ;

    /// Adds a line break.
    fn newline(&mut self) -> (r: &mut Self)
        ensures
            r.grown(old(self), TermSequence::Newline),
            *final(self) == *final(r),
    ;

    /// What the prompt puts on the screen in the session `context`.
    fn raw_text(&self, context: &PromptContext) -> (r: String)
        ensures
            r@ == shown(self.elements(), self.shell(), *context),
    ;

    /// The number of terminal columns that the prompt occupies in the
    /// session `context`, or `usize::MAX` where the number does not fit.
    fn len(&self, context: &PromptContext) -> (w: usize)
        ensures
            w == clipped(measured(self.elements(), self.shell(), *context)),
    ;

    /// Whether the prompt occupies no column at all.
    fn is_empty(&self, context: &PromptContext) -> (r: bool)
        ensures
            r == (measured(self.elements(), self.shell(), *context) == 0),
    ;
}

impl ZshSpecificBuilder for TermPromptBuilder {
    fn username(&mut self) -> (r: &mut Self) {
        TermPromptBuilder::username(self)
    }

    fn hostname_short(&mut self) -> (r: &mut Self) {
        TermPromptBuilder::hostname_short(self)
    }

    fn current_dir_full(&mut self) -> (r: &mut Self) {
        TermPromptBuilder::current_dir_full(self)
    }

    fn current_dir_tilde(&mut self) -> (r: &mut Self) {
        TermPromptBuilder::current_dir_tilde(self)
    }

    fn privileged_indicator(&mut self) -> (r: &mut Self) {
        TermPromptBuilder::privileged_indicator(self)
    }

    fn newline(&mut self) -> (r: &mut Self) {
        TermPromptBuilder::newline(self)
    }

    fn raw_text(&self, context: &PromptContext) -> (r: String) {
        TermPromptBuilder::raw_text(self, context)
    }

    fn len(&self, context: &PromptContext) -> (w: usize) {
        TermPromptBuilder::len(self, context)
    }

    fn is_empty(&self, context: &PromptContext) -> (r: bool) {
        TermPromptBuilder::is_empty(self, context)
    }
}

} // verus!
