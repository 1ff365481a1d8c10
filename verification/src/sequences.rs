//! The elements of a prompt and the shells they are written for.

use vstd::prelude::*;
use vstd::string::StringExecFns;
use crate::colors::NamedColor;
use crate::context::{file_name, last_component, viewed, PromptContext};
use crate::sequences::translator::bash::{bash_text, to_bash_string};
use crate::sequences::translator::fish::{fish_text, to_fish_string};
use crate::sequences::translator::pwsh::{pwsh_text, to_pwsh_string};
use crate::sequences::translator::tmux::{tmux_text, to_tmux_string};
use crate::sequences::translator::zsh::{to_zsh_string, zsh_text};
use crate::text::{lowercase_of, str_equals, to_lowercase};

pub mod translator;

verus! {

/// The shell whose prompt syntax is written.
#[derive(Debug, Clone, Copy, PartialEq, Eq)]
pub enum TermType {
    Zsh,
    Bash,
    Tmux,
    Pwsh,
    Fish,
}

/// One element of a prompt, independent of the shell: a piece of text, a
/// change of style or colour, or a value that the shell fills in when it
/// shows the prompt.
#[derive(Debug, Clone, PartialEq, Eq)]
pub enum TermSequence {
    /// A percent sign.
    Percent,
    BoldStart,
    BoldEnd,
    UnderlineStart,
    UnderlineEnd,
    /// Standout: reverse video.
    StandoutStart,
    StandoutEnd,
    StrikethroughStart,
    StrikethroughEnd,
    OverlineStart,
    OverlineEnd,
    BlinkStart,
    BlinkEnd,
    /// Sets the foreground colour.
    ForegroundColor(NamedColor),
    /// Returns to the default foreground colour.
    ForegroundColorEnd,
    /// Sets the background colour.
    BackgroundColor(NamedColor),
    /// Returns to the default background colour.
    BackgroundColorEnd,
    /// Resets every style and colour.
    ResetStyles,
    /// The name of the user.
    Username,
    /// The name of the host up to its first dot.
    HostnameShort,
    /// The working directory, in full.
    CurrentDirectoryFull,
    /// The working directory, with the home directory written as `~`.
    CurrentDirectoryTilde,
    /// `#` for the superuser, the shell's usual sign for anyone else.
    PrivilegedIndicator,
    /// A line break.
    Newline,
    /// Text that is shown as it is.
    Literal(String),
}

/// One element of a Zsh prompt.
#[derive(Debug, Clone, PartialEq, Eq)]
pub enum ZshSequence {
    /// A percent sign.
    Percent,
    BoldStart,
    BoldEnd,
    UnderlineStart,
    UnderlineEnd,
    /// Standout: reverse video.
    StandoutStart,
    StandoutEnd,
    /// Sets the foreground colour.
    ForegroundColor(NamedColor),
    /// Returns to the default foreground colour.
    ForegroundColorEnd,
    /// Sets the background colour.
    BackgroundColor(NamedColor),
    /// Returns to the default background colour.
    BackgroundColorEnd,
    /// Resets every style and colour.
    ResetStyles,
    /// The name of the user.
    Username,
    /// The name of the host up to its first dot.
    HostnameShort,
    /// The working directory, in full.
    CurrentDirectoryFull,
    /// The working directory, with the home directory written as `~`.
    CurrentDirectoryTilde,
    /// `#` for the superuser, `%` for anyone else.
    PrivilegedIndicator,
    /// A line break.
    Newline,
    /// Text that is shown as it is.
    Literal(String),
}

impl TermType {
    /// The shell that a lower-case name denotes.
    pub open spec fn named(name: Seq<char>) -> Option<TermType> {
        if name == "zsh"@ {
            Some(TermType::Zsh)
        } else if name == "bash"@ {
            Some(TermType::Bash)
        } else if name == "tmux"@ {
            Some(TermType::Tmux)
        } else if name == "pwsh"@ {
            Some(TermType::Pwsh)
        } else if name == "fish"@ {
            Some(TermType::Fish)
        } else {
            None
        }
    }

    /// Looks a shell up by its lower-case name.
    pub fn from_name(name: &str) -> (r: Option<TermType>)
        ensures
            r == TermType::named(name@),
    {
        if str_equals(name, "zsh") {
            Some(TermType::Zsh)
        } else if str_equals(name, "bash") {
            Some(TermType::Bash)
        } else if str_equals(name, "tmux") {
            Some(TermType::Tmux)
        } else if str_equals(name, "pwsh") {
            Some(TermType::Pwsh)
        } else if str_equals(name, "fish") {
            Some(TermType::Fish)
        } else {
            None
        }
    }

    /// Reads the name of a shell, in any mix of upper and lower case.
    pub fn parse(name: &str) -> (r: Option<TermType>)
        ensures
            r == TermType::named(lowercase_of(name@)),
    {
        let lower = to_lowercase(name);
        TermType::from_name(lower.as_str())
    }

    /// The shell that the environment of a process points to. Inside tmux
    /// (`TERM_PROGRAM` is `tmux`) it is tmux; else, where either variable
    /// of PowerShell is set, PowerShell; else the shell that the last
    /// component of `SHELL` names; and Bash where nothing tells.
    pub open spec fn detected(
        term_program: Option<Seq<char>>,
        ps_module_path: Option<Seq<char>>,
        powershell_distribution_id: Option<Seq<char>>,
        shell: Option<Seq<char>>,
    ) -> TermType {
        if term_program == Some("tmux"@) {
            TermType::Tmux
        } else if ps_module_path is Some || powershell_distribution_id is Some {
            TermType::Pwsh
        } else {
            match shell {
                Some(path) => match TermType::named(last_component(path)) {
                    Some(named) => named,
                    None => TermType::Bash,
                },
                None => TermType::Bash,
            }
        }
    }

    /// Picks the shell from the values of `TERM_PROGRAM`, `PSModulePath`,
    /// `POWERSHELL_DISTRIBUTION_ID` and `SHELL`, each `None` where the
    /// variable is not set.
    pub fn detect_from(
        term_program: Option<&str>,
        ps_module_path: Option<&str>,
        powershell_distribution_id: Option<&str>,
        shell: Option<&str>,
    ) -> (r: TermType)
        ensures
            r == TermType::detected(
                viewed(term_program),
                viewed(ps_module_path),
                viewed(powershell_distribution_id),
                viewed(shell),
            ),
    {
        let in_tmux = match term_program {
            Some(program) => str_equals(program, "tmux"),
            None => false,
        };
        if in_tmux {
            TermType::Tmux
        } else if ps_module_path.is_some() || powershell_distribution_id.is_some() {
            TermType::Pwsh
        } else {
            match shell {
                Some(path) => {
                    let name = file_name(path);
                    match TermType::from_name(name.as_str()) {
                        Some(named) => named,
                        None => TermType::Bash,
                    }
                },
                None => TermType::Bash,
            }
        }
    }

    /// The sign that this shell shows for a user: `#` for the superuser,
    /// else `%` in Zsh and `$` in the others.
    pub open spec fn user_sign(self, privileged: bool) -> Seq<char> {
        if privileged {
            "#"@
        } else if self is Zsh {
            "%"@
        } else {
            "$"@
        }
    }
}

impl TermSequence {
    /// Whether the element only changes how text looks: a style, a colour or
    /// the reset of both.
    pub open spec fn is_styling(self) -> bool {
        match self {
            TermSequence::BoldStart
            | TermSequence::BoldEnd
            | TermSequence::UnderlineStart
            | TermSequence::UnderlineEnd
            | TermSequence::StandoutStart
            | TermSequence::StandoutEnd
            | TermSequence::StrikethroughStart
            | TermSequence::StrikethroughEnd
            | TermSequence::OverlineStart
            | TermSequence::OverlineEnd
            | TermSequence::BlinkStart
            | TermSequence::BlinkEnd
            | TermSequence::ForegroundColor(_)
            | TermSequence::ForegroundColorEnd
            | TermSequence::BackgroundColor(_)
            | TermSequence::BackgroundColorEnd
            | TermSequence::ResetStyles => true,
            _ => false,
        }
    }

    /// The text of a literal element; nothing for any other element.
    pub open spec fn literal_text(self) -> Seq<char> {
        match self {
            TermSequence::Literal(s) => s@,
            _ => Seq::empty(),
        }
    }

    /// The element as `target` writes it in a prompt.
    pub open spec fn shell_text(self, target: TermType) -> Seq<char> {
        match target {
            TermType::Zsh => zsh_text(self),
            TermType::Bash => bash_text(self),
            TermType::Tmux => tmux_text(self),
            TermType::Pwsh => pwsh_text(self),
            TermType::Fish => fish_text(self),
        }
    }

    /// What the element puts on the screen in the session `context`: its
    /// text for a literal, the session's value for a placeholder, nothing
    /// for a style or a colour.
    pub open spec fn shown_text(self, target: TermType, context: PromptContext) -> Seq<char> {
        match self {
            TermSequence::Percent => "%"@,
            TermSequence::Username => context.user_text(),
            TermSequence::HostnameShort => context.host_text(),
            TermSequence::CurrentDirectoryFull => context.dir_text(),
            TermSequence::CurrentDirectoryTilde => context.short_dir_text(),
            TermSequence::PrivilegedIndicator => target.user_sign(context.privileged),
            TermSequence::Newline => "\n"@,
            TermSequence::Literal(s) => s@,
            _ => Seq::empty(),
        }
    }

    /// Writes the element in the prompt syntax of `target`.
    pub fn to_shell_string(&self, target: TermType) -> (r: String)
        ensures
            r@ == self.shell_text(target),
    {
        match target {
            TermType::Zsh => to_zsh_string(self),
            TermType::Bash => to_bash_string(self),
            TermType::Tmux => to_tmux_string(self),
            TermType::Pwsh => to_pwsh_string(self),
            TermType::Fish => to_fish_string(self),
        }
    }

    /// What the element puts on the screen in the session `context`.
    pub fn raw_text(&self, target: TermType, context: &PromptContext) -> (r: String)
        ensures
            r@ == self.shown_text(target, *context),
    {
        match self {
            TermSequence::Percent => String::from_str("%"),
            TermSequence::Username => context.user(),
            TermSequence::HostnameShort => context.host(),
            TermSequence::CurrentDirectoryFull => context.dir(),
            TermSequence::CurrentDirectoryTilde => context.short_dir(),
            TermSequence::PrivilegedIndicator => {
                if context.privileged {
                    String::from_str("#")
                } else {
                    match target {
                        TermType::Zsh => String::from_str("%"),
                        _ => String::from_str("$"),
                    }
                }
            },
            TermSequence::Newline => String::from_str("\n"),
            TermSequence::Literal(s) => s.clone(),
            _ => String::new(),
        }
    }
}

impl ZshSequence {
    /// The same element among the shell-independent ones.
    pub open spec fn generic(self) -> TermSequence {
        match self {
            ZshSequence::Percent => TermSequence::Percent,
            ZshSequence::BoldStart => TermSequence::BoldStart,
            ZshSequence::BoldEnd => TermSequence::BoldEnd,
            ZshSequence::UnderlineStart => TermSequence::UnderlineStart,
            ZshSequence::UnderlineEnd => TermSequence::UnderlineEnd,
            ZshSequence::StandoutStart => TermSequence::StandoutStart,
            ZshSequence::StandoutEnd => TermSequence::StandoutEnd,
            ZshSequence::ForegroundColor(color) => TermSequence::ForegroundColor(color),
            ZshSequence::ForegroundColorEnd => TermSequence::ForegroundColorEnd,
            ZshSequence::BackgroundColor(color) => TermSequence::BackgroundColor(color),
            ZshSequence::BackgroundColorEnd => TermSequence::BackgroundColorEnd,
            ZshSequence::ResetStyles => TermSequence::ResetStyles,
            ZshSequence::Username => TermSequence::Username,
            ZshSequence::HostnameShort => TermSequence::HostnameShort,
            ZshSequence::CurrentDirectoryFull => TermSequence::CurrentDirectoryFull,
            ZshSequence::CurrentDirectoryTilde => TermSequence::CurrentDirectoryTilde,
            ZshSequence::PrivilegedIndicator => TermSequence::PrivilegedIndicator,
            ZshSequence::Newline => TermSequence::Newline,
            ZshSequence::Literal(s) => TermSequence::Literal(s),
        }
    }

    /// Whether the element only changes how text looks.
    pub open spec fn is_styling(self) -> bool {
        self.generic().is_styling()
    }

    /// The text of a literal element; nothing for any other element.
    pub open spec fn literal_text(self) -> Seq<char> {
        self.generic().literal_text()
    }

    /// The element in Zsh's prompt syntax. A percent sign is written `%%`;
    /// every other element is written as the shell-independent element is.
    pub open spec fn zsh_text(self) -> Seq<char> {
        match self {
            ZshSequence::Percent => "%%"@,
            _ => zsh_text(self.generic()),
        }
    }

    /// The element in Bash's prompt syntax.
    pub open spec fn bash_text(self) -> Seq<char> {
        bash_text(self.generic())
    }

    /// What the element puts on the screen in the session `context`.
    pub open spec fn shown_text(self, context: PromptContext) -> Seq<char> {
        self.generic().shown_text(TermType::Zsh, context)
    }

    /// The same element among the shell-independent ones.
    pub fn to_term_sequence(&self) -> (r: TermSequence)
        ensures
            r == self.generic(),
    {
        match self {
            ZshSequence::Percent => TermSequence::Percent,
            ZshSequence::BoldStart => TermSequence::BoldStart,
            ZshSequence::BoldEnd => TermSequence::BoldEnd,
            ZshSequence::UnderlineStart => TermSequence::UnderlineStart,
            ZshSequence::UnderlineEnd => TermSequence::UnderlineEnd,
            ZshSequence::StandoutStart => TermSequence::StandoutStart,
            ZshSequence::StandoutEnd => TermSequence::StandoutEnd,
            ZshSequence::ForegroundColor(color) => TermSequence::ForegroundColor(*color),
            ZshSequence::ForegroundColorEnd => TermSequence::ForegroundColorEnd,
            ZshSequence::BackgroundColor(color) => TermSequence::BackgroundColor(*color),
            ZshSequence::BackgroundColorEnd => TermSequence::BackgroundColorEnd,
            ZshSequence::ResetStyles => TermSequence::ResetStyles,
            ZshSequence::Username => TermSequence::Username,
            ZshSequence::HostnameShort => TermSequence::HostnameShort,
            ZshSequence::CurrentDirectoryFull => TermSequence::CurrentDirectoryFull,
            ZshSequence::CurrentDirectoryTilde => TermSequence::CurrentDirectoryTilde,
            ZshSequence::PrivilegedIndicator => TermSequence::PrivilegedIndicator,
            ZshSequence::Newline => TermSequence::Newline,
            ZshSequence::Literal(s) => TermSequence::Literal(s.clone()),
        }
    }

    /// Writes the element in Zsh's prompt syntax.
    pub fn to_string(&self) -> (r: String)
        ensures
            r@ == self.zsh_text(),
    {
        match self {
            ZshSequence::Percent => String::from_str("%%"),
            _ => {
                let element = self.to_term_sequence();
                to_zsh_string(&element)
            },
        }
    }

    /// Writes the element in Bash's prompt syntax.
    pub fn bash(&self) -> (r: String)
        ensures
            r@ == self.bash_text(),
    {
        let element = self.to_term_sequence();
        to_bash_string(&element)
    }

    /// What the element puts on the screen in the session `context`: its
    /// text for a literal, the session's value for a placeholder, nothing
    /// for a style or a colour.
    pub fn raw_text(&self, context: &PromptContext) -> (r: String)
        ensures
            r@ == self.shown_text(*context),
    {
        let element = self.to_term_sequence();
        element.raw_text(TermType::Zsh, context)
    }
}

} // verus!
