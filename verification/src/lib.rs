//! Shell prompt escape sequences: a prompt is described once, as a list of
//! shell-independent elements, and rendered in the syntax of Zsh, Bash, tmux,
//! PowerShell or Fish. The crate also extracts the literal text of a prompt and
//! measures the number of terminal columns that it occupies.

pub mod builder;
pub mod colors;
pub mod context;
pub mod laws;
pub mod sequences;
pub mod shell;
pub mod text;
pub mod traits;
pub mod width;

pub use builder::{TermPromptBuilder, ZshPromptBuilder};
pub use colors::{parse_color, NamedColor};
pub use context::PromptContext;
pub use sequences::translator::bash::to_bash_string;
pub use sequences::translator::fish::to_fish_string;
pub use sequences::translator::pwsh::to_pwsh_string;
pub use sequences::translator::tmux::to_tmux_string;
pub use sequences::translator::zsh::to_zsh_string;
pub use sequences::{TermSequence, TermType, ZshSequence};
pub use shell::print;
pub use traits::{ColoredZshPrompt, ShellPromptBuilder, ZshSpecificBuilder};
