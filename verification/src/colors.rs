//! Colours of a prompt: sixteen named colours, the 256-colour palette and
//! 24-bit colours, with the tokens and SGR parameters that stand for them.

use vstd::prelude::*;
use vstd::string::StringExecFns;
use crate::text::{decimal, lowercase_of, push_decimal, str_equals, to_lowercase};

verus! {

/// A colour: one of sixteen names, an index into the 256-colour palette, or a
/// 24-bit colour given as red, green and blue.
#[derive(Debug, Clone, Copy, PartialEq, Eq)]
pub enum NamedColor {
    Black,
    Red,
    Green,
    Yellow,
    Blue,
    Magenta,
    Cyan,
    White,
    LightBlack,
    LightRed,
    LightGreen,
    LightYellow,
    LightBlue,
    LightMagenta,
    LightCyan,
    LightWhite,
    Code256(u8),
    FullColor((u8, u8, u8)),
}

impl NamedColor {
    /// The token that names this colour inside a Zsh colour escape. A 24-bit
    /// colour has no token: it is always written as an escape sequence.
    pub open spec fn term_token(self) -> Seq<char>
        recommends
            !(self is FullColor),
    {
        match self {
            NamedColor::Black => "black"@,
            NamedColor::Red => "red"@,
            NamedColor::Green => "green"@,
            NamedColor::Yellow => "yellow"@,
            NamedColor::Blue => "blue"@,
            NamedColor::Magenta => "magenta"@,
            NamedColor::Cyan => "cyan"@,
            NamedColor::White => "white"@,
            NamedColor::LightBlack => "240"@,
            NamedColor::LightRed => "lightred"@,
            NamedColor::LightGreen => "lightgreen"@,
            NamedColor::LightYellow => "lightyellow"@,
            NamedColor::LightBlue => "lightblue"@,
            NamedColor::LightMagenta => "lightmagenta"@,
            NamedColor::LightCyan => "lightcyan"@,
            NamedColor::LightWhite => "white"@,
            NamedColor::Code256(code) => decimal(code as nat),
            NamedColor::FullColor(_) => Seq::empty(),
        }
    }

    /// The colour token for a named or indexed colour. A 24-bit colour is
    /// never turned into a token, so the caller must not pass one.
    pub fn to_term_string(&self) -> (r: String)
        requires
            !(*self is FullColor),
        ensures
            r@ == self.term_token(),
    {
        match self {
            NamedColor::Black => String::from_str("black"),
            NamedColor::Red => String::from_str("red"),
            NamedColor::Green => String::from_str("green"),
            NamedColor::Yellow => String::from_str("yellow"),
            NamedColor::Blue => String::from_str("blue"),
            NamedColor::Magenta => String::from_str("magenta"),
            NamedColor::Cyan => String::from_str("cyan"),
            NamedColor::White => String::from_str("white"),
            NamedColor::LightBlack => String::from_str("240"),
            NamedColor::LightRed => String::from_str("lightred"),
            NamedColor::LightGreen => String::from_str("lightgreen"),
            NamedColor::LightYellow => String::from_str("lightyellow"),
            NamedColor::LightBlue => String::from_str("lightblue"),
            NamedColor::LightMagenta => String::from_str("lightmagenta"),
            NamedColor::LightCyan => String::from_str("lightcyan"),
            NamedColor::LightWhite => String::from_str("white"),
            NamedColor::Code256(code) => {
                let mut out = String::new();
                push_decimal(&mut out, *code);
                out
            },
            NamedColor::FullColor(_) => String::new(),
        }
    }

    /// The colour as it is written in messages: the variant's name, with the
    /// index or the three components in parentheses.
    pub open spec fn label(self) -> Seq<char> {
        match self {
            NamedColor::Black => "Black"@,
            NamedColor::Red => "Red"@,
            NamedColor::Green => "Green"@,
            NamedColor::Yellow => "Yellow"@,
            NamedColor::Blue => "Blue"@,
            NamedColor::Magenta => "Magenta"@,
            NamedColor::Cyan => "Cyan"@,
            NamedColor::White => "White"@,
            NamedColor::LightBlack => "LightBlack"@,
            NamedColor::LightRed => "LightRed"@,
            NamedColor::LightGreen => "LightGreen"@,
            NamedColor::LightYellow => "LightYellow"@,
            NamedColor::LightBlue => "LightBlue"@,
            NamedColor::LightMagenta => "LightMagenta"@,
            NamedColor::LightCyan => "LightCyan"@,
            NamedColor::LightWhite => "LightWhite"@,
            NamedColor::Code256(code) => "Code256("@ + decimal(code as nat) + ")"@,
            NamedColor::FullColor((r, g, b)) => "FullColor("@ + decimal(r as nat) + ","@ + decimal(
                g as nat,
            ) + ","@ + decimal(b as nat) + ")"@,
        }
    }

    /// The colour as it is written in messages.
    pub fn to_string(&self) -> (r: String)
        ensures
            r@ == self.label(),
    {
        match self {
            NamedColor::Black => String::from_str("Black"),
            NamedColor::Red => String::from_str("Red"),
            NamedColor::Green => String::from_str("Green"),
            NamedColor::Yellow => String::from_str("Yellow"),
            NamedColor::Blue => String::from_str("Blue"),
            NamedColor::Magenta => String::from_str("Magenta"),
            NamedColor::Cyan => String::from_str("Cyan"),
            NamedColor::White => String::from_str("White"),
            NamedColor::LightBlack => String::from_str("LightBlack"),
            NamedColor::LightRed => String::from_str("LightRed"),
            NamedColor::LightGreen => String::from_str("LightGreen"),
            NamedColor::LightYellow => String::from_str("LightYellow"),
            NamedColor::LightBlue => String::from_str("LightBlue"),
            NamedColor::LightMagenta => String::from_str("LightMagenta"),
            NamedColor::LightCyan => String::from_str("LightCyan"),
            NamedColor::LightWhite => String::from_str("LightWhite"),
            NamedColor::Code256(code) => {
                let mut out = String::from_str("Code256(");
                push_decimal(&mut out, *code);
                out.append(")");
                out
            },
            NamedColor::FullColor((r, g, b)) => {
                let mut out = String::from_str("FullColor(");
                push_decimal(&mut out, *r);
                out.append(",");
                push_decimal(&mut out, *g);
                out.append(",");
                push_decimal(&mut out, *b);
                out.append(")");
                out
            },
        }
    }

    /// The place of a named colour among the sixteen terminal colours: 0 to
    /// 7 for the plain names, 8 to 15 for the light ones.
    pub open spec fn palette_index(self) -> nat
        recommends
            !(self is Code256),
            !(self is FullColor),
    {
        match self {
            NamedColor::Black => 0,
            NamedColor::Red => 1,
            NamedColor::Green => 2,
            NamedColor::Yellow => 3,
            NamedColor::Blue => 4,
            NamedColor::Magenta => 5,
            NamedColor::Cyan => 6,
            NamedColor::White => 7,
            NamedColor::LightBlack => 8,
            NamedColor::LightRed => 9,
            NamedColor::LightGreen => 10,
            NamedColor::LightYellow => 11,
            NamedColor::LightBlue => 12,
            NamedColor::LightMagenta => 13,
            NamedColor::LightCyan => 14,
            NamedColor::LightWhite => 15,
            _ => 0,
        }
    }

    /// The SGR parameters that select this colour, counted from `base`: 30
    /// for the foreground, 40 for the background. A named colour is
    /// `base + index` (or `base + 60 + index - 8` for a light one), a palette
    /// colour `base+8;5;n`, a 24-bit colour `base+8;2;r;g;b`.
    pub open spec fn sgr_parameters(self, base: nat) -> Seq<char> {
        match self {
            NamedColor::Code256(code) => decimal(base + 8) + ";5;"@ + decimal(code as nat),
            NamedColor::FullColor((r, g, b)) => decimal(base + 8) + ";2;"@ + decimal(r as nat)
                + ";"@ + decimal(g as nat) + ";"@ + decimal(b as nat),
            _ => if self.palette_index() < 8 {
                decimal(base + self.palette_index())
            } else {
                decimal((base + 52 + self.palette_index()) as nat)
            },
        }
    }

    /// The SGR parameters that set this colour as the foreground.
    pub open spec fn sgr_foreground(self) -> Seq<char> {
        self.sgr_parameters(30)
    }

    /// The SGR parameters that set this colour as the background.
    pub open spec fn sgr_background(self) -> Seq<char> {
        self.sgr_parameters(40)
    }

    fn index(&self) -> (i: u8)
        ensures
            i == self.palette_index(),
            i < 16,
    {
        match self {
            NamedColor::Black => 0,
            NamedColor::Red => 1,
            NamedColor::Green => 2,
            NamedColor::Yellow => 3,
            NamedColor::Blue => 4,
            NamedColor::Magenta => 5,
            NamedColor::Cyan => 6,
            NamedColor::White => 7,
            NamedColor::LightBlack => 8,
            NamedColor::LightRed => 9,
            NamedColor::LightGreen => 10,
            NamedColor::LightYellow => 11,
            NamedColor::LightBlue => 12,
            NamedColor::LightMagenta => 13,
            NamedColor::LightCyan => 14,
            NamedColor::LightWhite => 15,
            _ => 0,
        }
    }

    /// Appends the SGR parameters that set this colour as the foreground.
    pub fn push_sgr_foreground(&self, out: &mut String)
        ensures
            final(out)@ == old(out)@ + self.sgr_foreground(),
    {
        self.push_sgr_parameters(out, 30)
    }

    /// Appends the SGR parameters that set this colour as the background.
    pub fn push_sgr_background(&self, out: &mut String)
        ensures
            final(out)@ == old(out)@ + self.sgr_background(),
    {
        self.push_sgr_parameters(out, 40)
    }

    fn push_sgr_parameters(&self, out: &mut String, base: u8)
        requires
            base == 30 || base == 40,
        ensures
            final(out)@ == old(out)@ + self.sgr_parameters(base as nat),
    {
        let ghost before = out@;
        match self {
            NamedColor::Code256(code) => {
                push_decimal(out, base + 8);
                out.append(";5;");
                push_decimal(out, *code);
                assert(out@ =~= before + self.sgr_parameters(base as nat));
            },
            NamedColor::FullColor((r, g, b)) => {
                push_decimal(out, base + 8);
                out.append(";2;");
                push_decimal(out, *r);
                out.append(";");
                push_decimal(out, *g);
                out.append(";");
                push_decimal(out, *b);
                assert(out@ =~= before + self.sgr_parameters(base as nat));
            },
            _ => {
                let i = self.index();
                if i < 8 {
                    push_decimal(out, base + i);
                } else {
                    push_decimal(out, base + 52 + i);
                }
            },
        }
    }
}

/// Whether `c` is one of the ten decimal digits.
pub open spec fn is_digit(c: char) -> bool {
    '0' <= c <= '9'
}

/// The number that a string of decimal digits denotes.
pub open spec fn digits_value(s: Seq<char>) -> nat
    decreases s.len(),
{
    if s.len() == 0 {
        0
    } else {
        digits_value(s.drop_last()) * 10 + (s.last() as nat - '0' as nat) as nat
    }
}

/// The digits of a numeral: the string itself, without a leading `+`.
pub open spec fn numeral_digits(s: Seq<char>) -> Seq<char> {
    if s.len() > 0 && s[0] == '+' {
        s.drop_first()
    } else {
        s
    }
}

/// The palette index that a string denotes: an optional `+` and at least one
/// decimal digit, with a value of at most 255.
pub open spec fn palette_code(s: Seq<char>) -> Option<u8> {
    let digits = numeral_digits(s);
    if digits.len() > 0 && (forall|i: int| 0 <= i < digits.len() ==> is_digit(#[trigger] digits[i]))
        && digits_value(digits) <= 255 {
        Some(digits_value(digits) as u8)
    } else {
        None
    }
}

proof fn lemma_digits_value_grows(s: Seq<char>, n: int)
    requires
        0 <= n <= s.len(),
    ensures
        digits_value(s.take(n)) <= digits_value(s),
    decreases s.len() - n,
{
    if n < s.len() {
        lemma_digits_value_grows(s, n + 1);
        assert(s.take(n + 1).drop_last() == s.take(n));
        assert(digits_value(s.take(n + 1)) >= digits_value(s.take(n))) by (nonlinear_arith)
            requires
                digits_value(s.take(n + 1)) == digits_value(s.take(n)) * 10 + (s.take(n + 1).last() as nat - '0' as nat) as nat,
        ;
    } else {
        assert(s.take(n) == s);
    }
}

/// Reads a palette index: an optional `+`, then decimal digits that denote a
/// number from 0 to 255. Anything else is `None`.
pub fn parse_palette_code(s: &str) -> (r: Option<u8>)
    ensures
        r == palette_code(s@),
{
    let ghost digits = numeral_digits(s@);
    let ghost shift: int = if s@.len() > 0 && s@[0] == '+' { 1 } else { 0 };
    let mut value: u16 = 0;
    let mut seen: bool = false;
    let mut first: bool = true;
    for c in it: s.chars()
        invariant
            it.seq() == s@,
            digits == numeral_digits(s@),
            shift == (if s@.len() > 0 && s@[0] == '+' { 1int } else { 0int }),
            first == (it.index() == 0),
            it.index() > 0 ==> it.index() >= shift,
            it.index() > 0 ==> (forall|i: int| 0 <= i < it.index() - shift ==> is_digit(#[trigger] digits[i])),
            it.index() > 0 ==> value == digits_value(digits.take(it.index() - shift)),
            it.index() == 0 ==> value == 0,
            value <= 255,
            seen == (it.index() - shift > 0),
    {
        let ghost k = it.index() - shift;
        if first && c == '+' {
            first = false;
            proof {
                assert(digits.take(0) =~= Seq::<char>::empty());
            }
        } else {
            first = false;
            proof {
                assert(digits[k] == c);
                assert(digits.take(k + 1).drop_last() == digits.take(k));
                if k == 0 {
                    assert(digits.take(0) =~= Seq::<char>::empty());
                }
            }
            if !('0' <= c && c <= '9') {
                return None;
            }
            let d: u16 = (c as u32 - '0' as u32) as u16;
            let next: u16 = value * 10 + d;
            if next > 255 {
                proof {
                    lemma_digits_value_grows(digits, k + 1);
                }
                return None;
            }
            value = next;
            seen = true;
        }
    }
    proof {
        assert(digits.take(digits.len() as int) == digits);
    }
    if seen {
        Some(value as u8)
    } else {
        None
    }
}

/// The colour that a lower-case name denotes, if it is one of the sixteen.
pub open spec fn color_named(name: Seq<char>) -> Option<NamedColor> {
    if name == "black"@ {
        Some(NamedColor::Black)
    } else if name == "red"@ {
        Some(NamedColor::Red)
    } else if name == "green"@ {
        Some(NamedColor::Green)
    } else if name == "yellow"@ {
        Some(NamedColor::Yellow)
    } else if name == "blue"@ {
        Some(NamedColor::Blue)
    } else if name == "magenta"@ {
        Some(NamedColor::Magenta)
    } else if name == "cyan"@ {
        Some(NamedColor::Cyan)
    } else if name == "white"@ {
        Some(NamedColor::White)
    } else if name == "lightblack"@ {
        Some(NamedColor::LightBlack)
    } else if name == "lightred"@ {
        Some(NamedColor::LightRed)
    } else if name == "lightgreen"@ {
        Some(NamedColor::LightGreen)
    } else if name == "lightyellow"@ {
        Some(NamedColor::LightYellow)
    } else if name == "lightblue"@ {
        Some(NamedColor::LightBlue)
    } else if name == "lightmagenta"@ {
        Some(NamedColor::LightMagenta)
    } else if name == "lightcyan"@ {
        Some(NamedColor::LightCyan)
    } else if name == "lightwhite"@ {
        Some(NamedColor::LightWhite)
    } else {
        None
    }
}

/// Looks a colour up by its lower-case name.
pub fn color_from_name(name: &str) -> (r: Option<NamedColor>)
    ensures
        r == color_named(name@),
{
    if str_equals(name, "black") {
        Some(NamedColor::Black)
    } else if str_equals(name, "red") {
        Some(NamedColor::Red)
    } else if str_equals(name, "green") {
        Some(NamedColor::Green)
    } else if str_equals(name, "yellow") {
        Some(NamedColor::Yellow)
    } else if str_equals(name, "blue") {
        Some(NamedColor::Blue)
    } else if str_equals(name, "magenta") {
        Some(NamedColor::Magenta)
    } else if str_equals(name, "cyan") {
        Some(NamedColor::Cyan)
    } else if str_equals(name, "white") {
        Some(NamedColor::White)
    } else if str_equals(name, "lightblack") {
        Some(NamedColor::LightBlack)
    } else if str_equals(name, "lightred") {
        Some(NamedColor::LightRed)
    } else if str_equals(name, "lightgreen") {
        Some(NamedColor::LightGreen)
    } else if str_equals(name, "lightyellow") {
        Some(NamedColor::LightYellow)
    } else if str_equals(name, "lightblue") {
        Some(NamedColor::LightBlue)
    } else if str_equals(name, "lightmagenta") {
        Some(NamedColor::LightMagenta)
    } else if str_equals(name, "lightcyan") {
        Some(NamedColor::LightCyan)
    } else if str_equals(name, "lightwhite") {
        Some(NamedColor::LightWhite)
    } else {
        None
    }
}

/// The colour that a colour specification denotes: a palette index where the
/// text is a number from 0 to 255, else the colour whose name the text is
/// once it is put in lower case.
pub open spec fn parsed_color(s: Seq<char>) -> Option<NamedColor> {
    match palette_code(s) {
        Some(code) => Some(NamedColor::Code256(code)),
        None => color_named(lowercase_of(s)),
    }
}

/// Reads a colour specification: a palette index from 0 to 255, or one of the
/// sixteen colour names in any mix of upper and lower case. Any other text
/// is `None`.
pub fn parse_color(color_str: &str) -> (r: Option<NamedColor>)
    ensures
        r == parsed_color(color_str@),
{
    match parse_palette_code(color_str) {
        Some(code) => Some(NamedColor::Code256(code)),
        None => {
            let lower = to_lowercase(color_str);
            color_from_name(lower.as_str())
        },
    }
}

} // verus!
