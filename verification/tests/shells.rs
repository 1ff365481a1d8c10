use term_seq::{
    print, to_bash_string, to_fish_string, to_pwsh_string, to_tmux_string, to_zsh_string,
    ColoredZshPrompt, NamedColor, PromptContext, TermSequence, TermType, ZshSequence,
};

const TARGETS: [TermType; 5] = [
    TermType::Zsh,
    TermType::Bash,
    TermType::Tmux,
    TermType::Pwsh,
    TermType::Fish,
];

fn session(privileged: bool) -> PromptContext {
    PromptContext {
        username: Some("alice".to_string()),
        hostname: Some("build.example.org".to_string()),
        current_dir: Some("/home/alice/src".to_string()),
        home_dir: Some("/home/alice".to_string()),
        privileged,
    }
}

#[test]
fn to_shell_string_is_the_translation_of_the_shell() {
    let elements = [
        TermSequence::Percent,
        TermSequence::BlinkStart,
        TermSequence::ForegroundColor(NamedColor::LightGreen),
        TermSequence::BackgroundColor(NamedColor::FullColor((1, 2, 3))),
        TermSequence::CurrentDirectoryTilde,
        TermSequence::Newline,
        TermSequence::Literal("50% done ✓".to_string()),
    ];
    for element in &elements {
        assert_eq!(element.to_shell_string(TermType::Zsh), to_zsh_string(element));
        assert_eq!(element.to_shell_string(TermType::Bash), to_bash_string(element));
        assert_eq!(element.to_shell_string(TermType::Tmux), to_tmux_string(element));
        assert_eq!(element.to_shell_string(TermType::Pwsh), to_pwsh_string(element));
        assert_eq!(element.to_shell_string(TermType::Fish), to_fish_string(element));
    }
}

#[test]
fn zsh_decoration_sequences() {
    let zsh = TermType::Zsh;
    assert_eq!(TermSequence::StandoutStart.to_shell_string(zsh), "%S");
    assert_eq!(TermSequence::StandoutEnd.to_shell_string(zsh), "%s");
    assert_eq!(TermSequence::StrikethroughStart.to_shell_string(zsh), "%{\x1b[9m%}");
    assert_eq!(TermSequence::StrikethroughEnd.to_shell_string(zsh), "%{\x1b[29m%}");
    assert_eq!(TermSequence::OverlineStart.to_shell_string(zsh), "%{\x1b[53m%}");
    assert_eq!(TermSequence::OverlineEnd.to_shell_string(zsh), "%{\x1b[55m%}");
    assert_eq!(TermSequence::BlinkStart.to_shell_string(zsh), "%{\x1b[5m%}");
    assert_eq!(TermSequence::BlinkEnd.to_shell_string(zsh), "%{\x1b[25m%}");
}

#[test]
fn standout_is_reverse_video() {
    assert_eq!(TermSequence::StandoutStart.to_shell_string(TermType::Bash), "\\[\\e[7m\\]");
    assert_eq!(TermSequence::StandoutEnd.to_shell_string(TermType::Bash), "\\[\\e[27m\\]");
    assert_eq!(TermSequence::StandoutStart.to_shell_string(TermType::Fish), "\x1b[7m");
    assert_eq!(TermSequence::StandoutEnd.to_shell_string(TermType::Pwsh), "\x1b[27m");
}

#[test]
fn light_colors_use_the_bright_codes() {
    let fg = TermSequence::ForegroundColor(NamedColor::LightRed);
    let bg = TermSequence::BackgroundColor(NamedColor::LightBlack);
    assert_eq!(fg.to_shell_string(TermType::Bash), "\\[\\e[91m\\]");
    assert_eq!(fg.to_shell_string(TermType::Tmux), "\x1b[91m");
    assert_eq!(bg.to_shell_string(TermType::Fish), "\x1b[100m");
    assert_eq!(fg.to_shell_string(TermType::Zsh), "%F{lightred}");
    assert_eq!(bg.to_shell_string(TermType::Zsh), "%K{240}");
}

#[test]
fn newline_in_each_shell() {
    assert_eq!(TermSequence::Newline.to_shell_string(TermType::Zsh), "\n");
    assert_eq!(TermSequence::Newline.to_shell_string(TermType::Bash), "\\n");
    assert_eq!(TermSequence::Newline.to_shell_string(TermType::Tmux), "\n");
    assert_eq!(TermSequence::Newline.to_shell_string(TermType::Fish), "\n");
    assert_eq!(TermSequence::Newline.to_shell_string(TermType::Pwsh), "`n");
}

#[test]
fn zsh_literal_doubles_percent_signs() {
    let literal = TermSequence::Literal("100% of 5%".to_string());
    assert_eq!(literal.to_shell_string(TermType::Zsh), "100%% of 5%%");
    assert_eq!(ZshSequence::Literal("%n".to_string()).to_string(), "%%n");
}

#[test]
fn zsh_literal_marks_characters_outside_ascii() {
    let literal = TermSequence::Literal("a→b".to_string());
    assert_eq!(literal.to_shell_string(TermType::Zsh), "a%{%G→%}b");
    assert_eq!(ZshSequence::Literal("日本".to_string()).to_string(), "%{%G日%}%{%G本%}");
}

#[test]
fn other_shells_pass_literals_through() {
    let text = "100% → done \\n";
    let literal = TermSequence::Literal(text.to_string());
    for target in [TermType::Bash, TermType::Tmux, TermType::Pwsh, TermType::Fish] {
        assert_eq!(literal.to_shell_string(target), text);
    }
}

#[test]
fn full_color_embeds_its_components_in_every_shell() {
    let element = TermSequence::ForegroundColor(NamedColor::FullColor((255, 100, 0)));
    for target in TARGETS {
        let text = element.to_shell_string(target);
        assert!(text.contains("[38;2;255;100;0m"), "{:?}: {}", target, text);
    }
    assert_eq!(element.to_shell_string(TermType::Zsh), "%{\x1b[38;2;255;100;0m%}");
    assert_eq!(element.to_shell_string(TermType::Bash), "\\[\\e[38;2;255;100;0m\\]");
    assert_eq!(element.to_shell_string(TermType::Tmux), "\x1b[38;2;255;100;0m");
    assert_eq!(element.to_shell_string(TermType::Pwsh), "\x1b[38;2;255;100;0m");
    assert_eq!(element.to_shell_string(TermType::Fish), "\x1b[38;2;255;100;0m");
}

#[test]
fn full_color_background_in_every_shell() {
    let element = TermSequence::BackgroundColor(NamedColor::FullColor((0, 7, 42)));
    assert_eq!(element.to_shell_string(TermType::Zsh), "%{\x1b[48;2;0;7;42m%}");
    assert_eq!(element.to_shell_string(TermType::Bash), "\\[\\e[48;2;0;7;42m\\]");
    assert_eq!(element.to_shell_string(TermType::Fish), "\x1b[48;2;0;7;42m");
}

#[test]
fn zsh_sequence_as_bash() {
    assert_eq!(ZshSequence::BoldStart.bash(), "\\[\\e[1m\\]");
    assert_eq!(ZshSequence::Username.bash(), "\\u");
    assert_eq!(ZshSequence::Literal("x%".to_string()).bash(), "x%");
}

#[test]
fn zsh_sequence_newline_and_standout() {
    assert_eq!(ZshSequence::Newline.to_string(), "\n");
    assert_eq!(ZshSequence::StandoutStart.to_string(), "%S");
    assert_eq!(ZshSequence::StandoutEnd.to_string(), "%s");
    assert_eq!(
        ZshSequence::ForegroundColor(NamedColor::FullColor((1, 2, 3))).to_string(),
        "%{\x1b[38;2;1;2;3m%}"
    );
}

#[test]
fn raw_text_of_each_element() {
    let context = session(false);
    assert_eq!(ZshSequence::Literal("50%".to_string()).raw_text(&context), "50%");
    assert_eq!(ZshSequence::Percent.raw_text(&context), "%");
    assert_eq!(ZshSequence::Username.raw_text(&context), "alice");
    assert_eq!(ZshSequence::HostnameShort.raw_text(&context), "build");
    assert_eq!(ZshSequence::CurrentDirectoryFull.raw_text(&context), "/home/alice/src");
    assert_eq!(ZshSequence::CurrentDirectoryTilde.raw_text(&context), "~/src");
    assert_eq!(ZshSequence::PrivilegedIndicator.raw_text(&context), "%");
    assert_eq!(ZshSequence::Newline.raw_text(&context), "\n");
    assert_eq!(ZshSequence::BoldStart.raw_text(&context), "");
    assert_eq!(ZshSequence::ForegroundColor(NamedColor::Red).raw_text(&context), "");
    assert_eq!(ZshSequence::ResetStyles.raw_text(&context), "");
}

#[test]
fn privileged_sign_depends_on_user_and_shell() {
    let sign = TermSequence::PrivilegedIndicator;
    assert_eq!(sign.raw_text(TermType::Zsh, &session(true)), "#");
    assert_eq!(sign.raw_text(TermType::Zsh, &session(false)), "%");
    assert_eq!(sign.raw_text(TermType::Bash, &session(true)), "#");
    assert_eq!(sign.raw_text(TermType::Bash, &session(false)), "$");
    assert_eq!(sign.raw_text(TermType::Fish, &session(false)), "$");
}

#[test]
fn print_fills_in_the_session() {
    let elements = vec![
        TermSequence::BoldStart,
        TermSequence::ForegroundColor(NamedColor::Green),
        TermSequence::Username,
        TermSequence::Literal("@".to_string()),
        TermSequence::HostnameShort,
        TermSequence::ForegroundColorEnd,
        TermSequence::Literal(":".to_string()),
        TermSequence::CurrentDirectoryTilde,
        TermSequence::BoldEnd,
        TermSequence::Newline,
        TermSequence::PrivilegedIndicator,
        TermSequence::Percent,
        TermSequence::ResetStyles,
    ];
    assert_eq!(
        print(&elements, &session(false)),
        "\x1b[1m\x1b[32malice@build\x1b[39m:~/src\x1b[22m\n$%\x1b[0m"
    );
    assert_eq!(print(&elements[10..11], &session(true)), "#");
    assert_eq!(print(&[], &session(true)), "");
}

#[test]
fn print_writes_colors_as_escape_sequences() {
    let elements = vec![
        TermSequence::ForegroundColor(NamedColor::Code256(160)),
        TermSequence::BackgroundColor(NamedColor::FullColor((1, 2, 3))),
        TermSequence::CurrentDirectoryFull,
    ];
    assert_eq!(
        print(&elements, &session(false)),
        "\x1b[38;5;160m\x1b[48;2;1;2;3m/home/alice/src"
    );
}

#[test]
fn text_wrapped_in_zsh_styles() {
    assert_eq!("hi".bold(), "%Bhi%b");
    assert_eq!("hi".underline(), "%Uhi%u");
    assert_eq!("hi".red(), "%F{red}hi%f");
    assert_eq!("hi".green(), "%F{green}hi%f");
    assert_eq!("hi".yellow(), "%F{yellow}hi%f");
    assert_eq!("hi".blue(), "%F{blue}hi%f");
    assert_eq!("hi".white(), "%F{white}hi%f");
    assert_eq!("hi".on_yellow(), "%K{yellow}hi%k");
    assert_eq!("hi".on_blue(), "%K{blue}hi%k");
}

#[test]
fn text_wrapped_in_full_colors() {
    assert_eq!(
        "hi".rgb_color(255, 100, 0),
        "%{\x1b[38;2;255;100;0m%}hi%{\x1b[0m%}"
    );
    assert_eq!(
        "hi".on_rgb_color(0, 1, 20),
        "%{\x1b[48;2;0;1;20m%}hi%{\x1b[0m%}"
    );
}

#[test]
fn wrapped_text_can_be_wrapped_again() {
    assert_eq!(
        "Critical Error".red().bold().on_yellow(),
        "%K{yellow}%B%F{red}Critical Error%f%b%k"
    );
    assert_eq!(String::from("x").underline(), "%Ux%u");
}
