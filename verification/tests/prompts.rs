use term_seq::builder::{extract_text, measure, render, resolve};
use term_seq::{
    NamedColor, PromptContext, ShellPromptBuilder, TermPromptBuilder, TermSequence, TermType,
    ZshPromptBuilder, ZshSequence, ZshSpecificBuilder,
};

const TARGETS: [TermType; 5] = [
    TermType::Zsh,
    TermType::Bash,
    TermType::Tmux,
    TermType::Pwsh,
    TermType::Fish,
];

fn session() -> PromptContext {
    PromptContext {
        username: Some("alice".to_string()),
        hostname: Some("build.example.org".to_string()),
        current_dir: Some("/home/alice/src".to_string()),
        home_dir: Some("/home/alice".to_string()),
        privileged: false,
    }
}

fn literal(text: &str) -> TermSequence {
    TermSequence::Literal(text.to_string())
}

#[test]
fn green_user_at_host_in_zsh() {
    let elements = vec![
        TermSequence::ForegroundColor(NamedColor::Green),
        literal("user@host"),
        TermSequence::ForegroundColorEnd,
    ];
    assert_eq!(render(&elements, TermType::Zsh), "%F{green}user@host%f");
}

#[test]
fn bold_hello_in_bash() {
    let elements = vec![
        TermSequence::BoldStart,
        literal("Hello"),
        TermSequence::BoldEnd,
    ];
    assert_eq!(render(&elements, TermType::Bash), "\\[\\e[1m\\]Hello\\[\\e[22m\\]");
    assert_eq!(extract_text(&elements), "Hello");
}

#[test]
fn full_color_in_a_prompt_for_every_shell() {
    let elements = vec![
        literal("a"),
        TermSequence::ForegroundColor(NamedColor::FullColor((255, 100, 0))),
        literal("b"),
    ];
    for target in TARGETS {
        let text = render(&elements, target);
        assert!(text.contains("[38;2;255;100;0m"), "{:?}: {}", target, text);
    }
}

#[test]
fn cafe_is_four_columns_wide() {
    let elements = vec![literal("café")];
    for target in TARGETS {
        assert_eq!(measure(&elements, target, &session()), 4);
    }
    assert_eq!(ZshPromptBuilder::new().str("café").len(&session()), 4);
}

#[test]
fn ascii_literal_is_as_wide_as_it_is_long() {
    for text in ["", "a", "hello", "50% [done] ~ $HOME"] {
        let elements = vec![literal(text)];
        assert_eq!(measure(&elements, TermType::Bash, &session()), text.len());
        assert_eq!(ZshPromptBuilder::new().str(text).len(&session()), text.len());
    }
}

#[test]
fn styles_take_no_column() {
    let plain = vec![literal("Alert")];
    let styled = vec![
        TermSequence::BoldStart,
        TermSequence::ForegroundColor(NamedColor::Red),
        TermSequence::BackgroundColor(NamedColor::FullColor((1, 2, 3))),
        literal("Alert"),
        TermSequence::BackgroundColorEnd,
        TermSequence::ForegroundColorEnd,
        TermSequence::BoldEnd,
    ];
    for target in TARGETS {
        assert_eq!(measure(&styled, target, &session()), 5);
        assert_eq!(
            measure(&styled, target, &session()),
            measure(&plain, target, &session())
        );
    }
}

#[test]
fn inserting_a_style_anywhere_keeps_the_width() {
    let base = vec![
        literal("日本"),
        TermSequence::Username,
        TermSequence::Newline,
        literal("x"),
        TermSequence::CurrentDirectoryTilde,
    ];
    let styles = [
        TermSequence::StrikethroughStart,
        TermSequence::OverlineEnd,
        TermSequence::BlinkStart,
        TermSequence::ResetStyles,
        TermSequence::BackgroundColor(NamedColor::Code256(200)),
    ];
    let width = measure(&base, TermType::Zsh, &session());
    assert_eq!(width, 4 + 5 + 0 + 1 + 5);
    for at in 0..=base.len() {
        for style in &styles {
            let mut changed = base.clone();
            changed.insert(at, style.clone());
            assert_eq!(measure(&changed, TermType::Zsh, &session()), width);
            assert_eq!(
                resolve(&changed, TermType::Zsh, &session()),
                resolve(&base, TermType::Zsh, &session())
            );
        }
    }
}

#[test]
fn rendering_joined_prompts_joins_the_renderings() {
    let a = vec![
        TermSequence::ForegroundColor(NamedColor::Blue),
        literal("[50%"),
        TermSequence::ForegroundColorEnd,
    ];
    let b = vec![TermSequence::Username, literal("@"), TermSequence::HostnameShort];
    let mut joined = a.clone();
    joined.extend(b.clone());
    for target in TARGETS {
        assert_eq!(
            render(&joined, target),
            render(&a, target) + &render(&b, target)
        );
    }
    assert_eq!(extract_text(&joined), extract_text(&a) + &extract_text(&b));
}

#[test]
fn connect_moves_the_elements_across() {
    let mut first = TermPromptBuilder::new(TermType::Fish);
    first.color(NamedColor::Blue).str("[").end_color();
    let mut second = TermPromptBuilder::new(TermType::Zsh);
    second.username().str("]");
    let alone = first.build() + &second.render(TermType::Fish);
    first.connect(second);
    assert_eq!(first.build(), alone);
    assert_eq!(first.build(), "\x1b[34m[\x1b[39m(whoami)]");
    assert_eq!(first.term_type(), TermType::Fish);
}

#[test]
fn plain_text_keeps_literals_in_order() {
    let elements = vec![
        literal("日本語 "),
        TermSequence::BoldStart,
        literal("100%"),
        TermSequence::Username,
        TermSequence::Newline,
        literal(" e\u{301}"),
    ];
    assert_eq!(extract_text(&elements), "日本語 100% e\u{301}");
}

#[test]
fn plain_text_without_literals_is_empty() {
    let elements = vec![
        TermSequence::BoldStart,
        TermSequence::Percent,
        TermSequence::Username,
        TermSequence::Newline,
        TermSequence::ResetStyles,
    ];
    assert_eq!(extract_text(&elements), "");
    assert_eq!(extract_text(&[]), "");
}

#[test]
fn adjacent_colors_are_both_rendered() {
    let mut builder = TermPromptBuilder::new(TermType::Tmux);
    builder.color(NamedColor::Red).color(NamedColor::Green).str("x");
    assert_eq!(builder.build(), "\x1b[31m\x1b[32mx");
}

#[test]
fn term_builder_chains_every_element() {
    let mut builder = TermPromptBuilder::new(TermType::Bash);
    builder
        .bold()
        .underline()
        .standout()
        .color(NamedColor::Green)
        .color_bg(NamedColor::Code256(17))
        .username()
        .str("@")
        .hostname_short()
        .end_color()
        .end_color_bg()
        .end_standout()
        .end_underline()
        .end_bold()
        .current_dir_full()
        .current_dir_tilde()
        .newline()
        .add_sequence(TermSequence::StrikethroughStart)
        .privileged_indicator()
        .reset_styles();
    assert_eq!(
        builder.build(),
        "\\[\\e[1m\\]\\[\\e[4m\\]\\[\\e[7m\\]\\[\\e[32m\\]\\[\\e[48;5;17m\\]\\u@\\h\
         \\[\\e[39m\\]\\[\\e[49m\\]\\[\\e[27m\\]\\[\\e[24m\\]\\[\\e[22m\\]\\w\\w\\n\
         \\[\\e[9m\\]\\$\\[\\e[0m\\]"
    );
    assert_eq!(builder.text(), "@");
    assert_eq!(builder.raw_text(&session()), "alice@build/home/alice/src~/src\n$");
    assert_eq!(builder.len(&session()), 11 + 15 + 5 + 1);
    assert!(!builder.is_empty(&session()));
}

#[test]
fn term_builder_renders_for_any_shell() {
    let mut builder = TermPromptBuilder::new(TermType::Zsh);
    builder.bold().str("50%").end_bold();
    assert_eq!(builder.build(), "%B50%%%b");
    assert_eq!(builder.render(TermType::Zsh), builder.build());
    assert_eq!(builder.render(TermType::Pwsh), "\x1b[1m50%\x1b[22m");
}

#[test]
fn zsh_builder_for_bash() {
    let builder = ZshPromptBuilder::new()
        .bold()
        .username()
        .str("@")
        .hostname_short()
        .end_bold()
        .add_sequence(ZshSequence::Percent);
    assert_eq!(builder.bash_build(), "\\[\\e[1m\\]\\u@\\h\\[\\e[22m\\]%%");
    assert_eq!(builder.build(), "%B%n@%m%b%%");
}

#[test]
fn zsh_builder_raw_text_fills_in_the_session() {
    let builder = ZshPromptBuilder::new()
        .color_bg(NamedColor::Blue)
        .underline()
        .standout()
        .username()
        .str("@")
        .hostname_short()
        .str(" ")
        .current_dir_tilde()
        .end_standout()
        .end_underline()
        .end_color_bg()
        .str(" ")
        .privileged_indicator();
    assert_eq!(builder.raw_text(&session()), "alice@build ~/src %");
    assert_eq!(builder.len(&session()), 19);
}

#[test]
fn prompt_without_visible_content_is_empty() {
    assert!(ZshPromptBuilder::new().is_empty(&session()));
    assert!(ZshPromptBuilder::default().bold().end_bold().is_empty(&session()));
    assert!(ZshPromptBuilder::new().newline().is_empty(&session()));
    assert!(!ZshPromptBuilder::new().str(" ").is_empty(&session()));
    assert!(TermPromptBuilder::new(TermType::Fish).is_empty(&session()));
}

#[test]
fn escape_sequences_inside_literals_take_no_column() {
    let builder = ZshPromptBuilder::new().str("\x1b[31mred\x1b[0m");
    assert_eq!(builder.len(&session()), 3);
    assert_eq!(builder.text(), "\x1b[31mred\x1b[0m");
}

fn greeting<B: ZshSpecificBuilder>(builder: &mut B, context: &PromptContext) -> (String, String, usize) {
    builder
        .add_bold()
        .add_underline()
        .add_standout()
        .add_color(NamedColor::Green)
        .add_color_bg(NamedColor::Black)
        .add_str("hi ")
        .username()
        .add_str("@")
        .hostname_short()
        .add_end_color_bg()
        .add_end_color()
        .add_end_standout()
        .add_end_underline()
        .add_end_bold()
        .add_reset_styles()
        .current_dir_full()
        .current_dir_tilde()
        .newline()
        .privileged_indicator();
    (
        ShellPromptBuilder::build(builder),
        ZshSpecificBuilder::raw_text(builder, context),
        ZshSpecificBuilder::len(builder, context),
    )
}

#[test]
fn builder_traits_add_the_same_elements() {
    let mut by_trait = TermPromptBuilder::new(TermType::Zsh);
    let (built, raw, width) = greeting(&mut by_trait, &session());
    assert_eq!(
        built,
        "%B%U%S%F{green}%K{black}hi %n@%m%k%f%s%u%b%{\x1b[0m%}%/%~\n%#"
    );
    assert_eq!(raw, "hi alice@build/home/alice/src~/src\n%");
    assert_eq!(width, 3 + 11 + 15 + 5 + 1);
    assert_eq!(ShellPromptBuilder::text(&by_trait), "hi @");
    assert!(!ZshSpecificBuilder::is_empty(&by_trait, &session()));
}

#[test]
fn add_connect_empties_the_other_builder() {
    let mut first = TermPromptBuilder::new(TermType::Bash);
    first.str("a");
    let mut second = TermPromptBuilder::new(TermType::Fish);
    second.bold().str("b");
    first.add_connect(&mut second);
    assert_eq!(first.build(), "a\\[\\e[1m\\]b");
    assert_eq!(second.build(), "");
    assert_eq!(second.term_type(), TermType::Fish);
    assert_eq!(first.term_type(), TermType::Bash);
}
