use term_seq::colors::{color_from_name, parse_palette_code};
use term_seq::{parse_color, NamedColor};

#[test]
fn term_string_of_named_colors() {
    assert_eq!(NamedColor::Black.to_term_string(), "black");
    assert_eq!(NamedColor::Red.to_term_string(), "red");
    assert_eq!(NamedColor::White.to_term_string(), "white");
    assert_eq!(NamedColor::LightBlack.to_term_string(), "240");
    assert_eq!(NamedColor::LightRed.to_term_string(), "lightred");
    assert_eq!(NamedColor::LightWhite.to_term_string(), "white");
}

#[test]
fn term_string_of_palette_codes() {
    assert_eq!(NamedColor::Code256(0).to_term_string(), "0");
    assert_eq!(NamedColor::Code256(7).to_term_string(), "7");
    assert_eq!(NamedColor::Code256(42).to_term_string(), "42");
    assert_eq!(NamedColor::Code256(100).to_term_string(), "100");
    assert_eq!(NamedColor::Code256(255).to_term_string(), "255");
}

#[test]
fn label_of_colors() {
    assert_eq!(NamedColor::Magenta.to_string(), "Magenta");
    assert_eq!(NamedColor::LightCyan.to_string(), "LightCyan");
    assert_eq!(NamedColor::Code256(9).to_string(), "Code256(9)");
    assert_eq!(
        NamedColor::FullColor((1, 20, 255)).to_string(),
        "FullColor(1,20,255)"
    );
}

#[test]
fn sgr_parameters_of_colors() {
    let mut out = String::from("x");
    NamedColor::Red.push_sgr_foreground(&mut out);
    assert_eq!(out, "x31");
    let mut out = String::new();
    NamedColor::LightBlue.push_sgr_foreground(&mut out);
    assert_eq!(out, "94");
    let mut out = String::new();
    NamedColor::LightWhite.push_sgr_background(&mut out);
    assert_eq!(out, "107");
    let mut out = String::new();
    NamedColor::Code256(17).push_sgr_background(&mut out);
    assert_eq!(out, "48;5;17");
    let mut out = String::new();
    NamedColor::FullColor((0, 9, 200)).push_sgr_foreground(&mut out);
    assert_eq!(out, "38;2;0;9;200");
}

#[test]
fn palette_code_accepts_numbers_up_to_255() {
    assert_eq!(parse_palette_code("0"), Some(0));
    assert_eq!(parse_palette_code("42"), Some(42));
    assert_eq!(parse_palette_code("255"), Some(255));
    assert_eq!(parse_palette_code("+7"), Some(7));
    assert_eq!(parse_palette_code("0000255"), Some(255));
}

#[test]
fn palette_code_rejects_everything_else() {
    assert_eq!(parse_palette_code(""), None);
    assert_eq!(parse_palette_code("+"), None);
    assert_eq!(parse_palette_code("256"), None);
    assert_eq!(parse_palette_code("99999999999999999999"), None);
    assert_eq!(parse_palette_code("-1"), None);
    assert_eq!(parse_palette_code("1+"), None);
    assert_eq!(parse_palette_code("12a"), None);
    assert_eq!(parse_palette_code(" 12"), None);
    assert_eq!(parse_palette_code("١٢"), None);
}

#[test]
fn palette_code_agrees_with_std() {
    for text in ["0", "+0", "255", "256", "+", "", "007", "1e2", "++1", "25 "] {
        assert_eq!(parse_palette_code(text), text.parse::<u8>().ok());
    }
}

#[test]
fn color_names_are_found_in_lower_case() {
    assert_eq!(color_from_name("black"), Some(NamedColor::Black));
    assert_eq!(color_from_name("lightwhite"), Some(NamedColor::LightWhite));
    assert_eq!(color_from_name("Black"), None);
    assert_eq!(color_from_name("grey"), None);
    assert_eq!(color_from_name(""), None);
}

#[test]
fn parse_color_reads_every_name() {
    let names = [
        ("black", NamedColor::Black),
        ("red", NamedColor::Red),
        ("green", NamedColor::Green),
        ("yellow", NamedColor::Yellow),
        ("blue", NamedColor::Blue),
        ("magenta", NamedColor::Magenta),
        ("cyan", NamedColor::Cyan),
        ("white", NamedColor::White),
        ("lightblack", NamedColor::LightBlack),
        ("lightred", NamedColor::LightRed),
        ("lightgreen", NamedColor::LightGreen),
        ("lightyellow", NamedColor::LightYellow),
        ("lightblue", NamedColor::LightBlue),
        ("lightmagenta", NamedColor::LightMagenta),
        ("lightcyan", NamedColor::LightCyan),
        ("lightwhite", NamedColor::LightWhite),
    ];
    for (name, color) in names {
        assert_eq!(parse_color(name), Some(color));
        assert_eq!(parse_color(&name.to_uppercase()), Some(color));
    }
}

#[test]
fn parse_color_ignores_case() {
    assert_eq!(parse_color("RED"), Some(NamedColor::Red));
    assert_eq!(parse_color("LightGreen"), Some(NamedColor::LightGreen));
}

#[test]
fn parse_color_reads_palette_codes() {
    assert_eq!(parse_color("0"), Some(NamedColor::Code256(0)));
    assert_eq!(parse_color("160"), Some(NamedColor::Code256(160)));
    assert_eq!(parse_color("255"), Some(NamedColor::Code256(255)));
}

#[test]
fn parse_color_rejects_unknown_text() {
    assert_eq!(parse_color("256"), None);
    assert_eq!(parse_color("purple"), None);
    assert_eq!(parse_color(""), None);
    assert_eq!(parse_color("red "), None);
}
