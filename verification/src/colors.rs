//! Terminal colors: 16 named colors, the 256-color palette, RGB and
//! `#RRGGBB` hex strings, each with its ANSI SGR parameter fragment.
use crate::numeral::{dec_of, u8_to_dec};
use vstd::prelude::*;
use vstd::string::*;

verus! {

/// A terminal color. `Hex` expects the format `#RRGGBB`; anything else
/// degrades to black rather than failing.
#[derive(Clone, Copy)]
pub enum Color {
    Reset,
    Black,
    Red,
    Green,
    Yellow,
    Blue,
    Magenta,
    Cyan,
    White,
    BrightBlack,
    BrightRed,
    BrightGreen,
    BrightYellow,
    BrightBlue,
    BrightMagenta,
    BrightCyan,
    BrightWhite,
    Rgb(u8, u8, u8),
    C256(u8),
    Hex(&'static str),
}

/// The fixed ANSI foreground code of a named color (0 for `Reset`,
/// 30-37 for the basic colors, 90-97 for the bright ones).
pub open spec fn named_code(c: Color) -> nat {
    match c {
        Color::Reset => 0,
        Color::Black => 30,
        Color::Red => 31,
        Color::Green => 32,
        Color::Yellow => 33,
        Color::Blue => 34,
        Color::Magenta => 35,
        Color::Cyan => 36,
        Color::White => 37,
        Color::BrightBlack => 90,
        Color::BrightRed => 91,
        Color::BrightGreen => 92,
        Color::BrightYellow => 93,
        Color::BrightBlue => 94,
        Color::BrightMagenta => 95,
        Color::BrightCyan => 96,
        Color::BrightWhite => 97,
        Color::Rgb(_, _, _) => 0,
        Color::C256(_) => 0,
        Color::Hex(_) => 0,
    }
}

/// Whether `c` is an ASCII hex digit (0-9, a-f, A-F).
pub open spec fn is_hex_digit(c: char) -> bool {
    ||| 48 <= c as u32 && c as u32 <= 57  // '0' ..= '9'
    ||| 97 <= c as u32 && c as u32 <= 102  // 'a' ..= 'f'
    ||| 65 <= c as u32 && c as u32 <= 70  // 'A' ..= 'F'
}

/// The value of an ASCII hex digit (0 for a character that is none).
pub open spec fn hex_digit_val(c: char) -> nat {
    if 48 <= c as u32 && c as u32 <= 57 {
        (c as u32 - 48) as nat
    } else if 97 <= c as u32 && c as u32 <= 102 {
        (c as u32 - 87) as nat
    } else if 65 <= c as u32 && c as u32 <= 70 {
        (c as u32 - 55) as nat
    } else {
        0
    }
}

/// Whether `s` is a well-formed hex color: exactly `#` followed by six
/// hex digits.
pub open spec fn is_valid_hex(s: Seq<char>) -> bool {
    &&& s.len() == 7
    &&& s[0] == '#'
    &&& is_hex_digit(s[1])
    &&& is_hex_digit(s[2])
    &&& is_hex_digit(s[3])
    &&& is_hex_digit(s[4])
    &&& is_hex_digit(s[5])
    &&& is_hex_digit(s[6])
}

/// The byte written by the two hex digits at positions `i` and `i + 1`.
pub open spec fn hex_pair(s: Seq<char>, i: int) -> nat
    recommends
        0 <= i && i + 1 < s.len(),
{
    16 * hex_digit_val(s[i]) + hex_digit_val(s[i + 1])
}

/// The red component of a hex color string; 0 when the string is malformed.
pub open spec fn hex_red(s: Seq<char>) -> nat {
    if is_valid_hex(s) {
        hex_pair(s, 1)
    } else {
        0
    }
}

/// The green component of a hex color string; 0 when the string is malformed.
pub open spec fn hex_green(s: Seq<char>) -> nat {
    if is_valid_hex(s) {
        hex_pair(s, 3)
    } else {
        0
    }
}

/// The blue component of a hex color string; 0 when the string is malformed.
pub open spec fn hex_blue(s: Seq<char>) -> nat {
    if is_valid_hex(s) {
        hex_pair(s, 5)
    } else {
        0
    }
}

/// The ANSI parameter fragment of a color: the bare numeric code for a
/// named color, `5;<index>` for a palette color and `2;<r>;<g>;<b>` for
/// an RGB or hex color. No `38;`/`48;` selector prefix is included.
pub open spec fn color_fragment(c: Color) -> Seq<char> {
    match c {
        Color::C256(n) => seq!['5', ';'] + dec_of(n as nat),
        Color::Rgb(r, g, b) => seq!['2', ';'] + dec_of(r as nat) + seq![';'] + dec_of(g as nat)
            + seq![';'] + dec_of(b as nat),
        Color::Hex(s) => seq!['2', ';'] + dec_of(hex_red(s@)) + seq![';'] + dec_of(hex_green(s@))
            + seq![';'] + dec_of(hex_blue(s@)),
        _ => dec_of(named_code(c)),
    }
}

/// The value of one hex digit character, or `None` if it is no hex digit.
fn hex_digit_value(c: char) -> (r: Option<u8>)
    ensures
        r is Some <==> is_hex_digit(c),
        r is Some ==> r->0 as nat == hex_digit_val(c) && r->0 < 16,
{
    let v = c as u32;
    if 48 <= v && v <= 57 {
        Some((v - 48) as u8)
    } else if 97 <= v && v <= 102 {
        Some((v - 87) as u8)
    } else if 65 <= v && v <= 70 {
        Some((v - 55) as u8)
    } else {
        None
    }
}

/// Parse a `#RRGGBB` hex color into its three byte components. A
/// malformed string (wrong length, missing `#`, a non-hex digit) gives
/// black, (0, 0, 0), rather than an error.
pub fn hex_to_rgb(hex: String) -> (rgb: (u8, u8, u8))
    ensures
        rgb.0 as nat == hex_red(hex@),
        rgb.1 as nat == hex_green(hex@),
        rgb.2 as nat == hex_blue(hex@),
{
    let s = hex.as_str();
    if s.unicode_len() != 7 {
        return (0, 0, 0);
    }
    if s.get_char(0) != '#' {
        return (0, 0, 0);
    }
    let d1 = hex_digit_value(s.get_char(1));
    let d2 = hex_digit_value(s.get_char(2));
    let d3 = hex_digit_value(s.get_char(3));
    let d4 = hex_digit_value(s.get_char(4));
    let d5 = hex_digit_value(s.get_char(5));
    let d6 = hex_digit_value(s.get_char(6));
    match (d1, d2, d3, d4, d5, d6) {
        (Some(a), Some(b), Some(c), Some(d), Some(e), Some(f)) => (
            a * 16 + b,
            c * 16 + d,
            e * 16 + f,
        ),
        _ => (0, 0, 0),
    }
}

/// The ANSI code of a named color, as a byte.
pub(crate) fn named_code_byte(c: Color) -> (n: u8)
    ensures
        n as nat == named_code(c),
{
    match c {
        Color::Reset => 0,
        Color::Black => 30,
        Color::Red => 31,
        Color::Green => 32,
        Color::Yellow => 33,
        Color::Blue => 34,
        Color::Magenta => 35,
        Color::Cyan => 36,
        Color::White => 37,
        Color::BrightBlack => 90,
        Color::BrightRed => 91,
        Color::BrightGreen => 92,
        Color::BrightYellow => 93,
        Color::BrightBlue => 94,
        Color::BrightMagenta => 95,
        Color::BrightCyan => 96,
        Color::BrightWhite => 97,
        Color::Rgb(_, _, _) => 0,
        Color::C256(_) => 0,
        Color::Hex(_) => 0,
    }
}

/// The `2;<r>;<g>;<b>` fragment of an RGB color.
fn rgb_fragment(r: u8, g: u8, b: u8) -> (out: String)
    ensures
        out@ == seq!['2', ';'] + dec_of(r as nat) + seq![';'] + dec_of(g as nat) + seq![';']
            + dec_of(b as nat),
{
    let mut out = String::from_str("2;");
    let rs = u8_to_dec(r);
    out.append(rs.as_str());
    out.append(";");
    let gs = u8_to_dec(g);
    out.append(gs.as_str());
    out.append(";");
    let bs = u8_to_dec(b);
    out.append(bs.as_str());
    proof {
        reveal_strlit("2;");
        reveal_strlit(";");
        assert(out@ =~= seq!['2', ';'] + dec_of(r as nat) + seq![';'] + dec_of(g as nat)
            + seq![';'] + dec_of(b as nat));
    }
    out
}

impl Color {
    /// The ANSI parameter fragment of this color, per `color_fragment`.
    pub fn to_ansi(self) -> (r: String)
        ensures
            r@ == color_fragment(self),
    {
        match self {
            Color::C256(n) => {
                let mut out = String::from_str("5;");
                let ns = u8_to_dec(n);
                out.append(ns.as_str());
                proof {
                    reveal_strlit("5;");
                    assert(out@ =~= color_fragment(self));
                }
                out
            },
            Color::Rgb(r, g, b) => rgb_fragment(r, g, b),
            Color::Hex(s) => {
                let (r, g, b) = hex_to_rgb(String::from_str(s));
                rgb_fragment(r, g, b)
            },
            _ => u8_to_dec(named_code_byte(self)),
        }
    }
}

/// A well-formed hex color renders exactly as the RGB color of its three
/// parsed byte components: the two encodings are interchangeable.
pub proof fn lemma_hex_matches_rgb(s: &'static str, r: u8, g: u8, b: u8)
    requires
        is_valid_hex(s@),
        r as nat == hex_red(s@),
        g as nat == hex_green(s@),
        b as nat == hex_blue(s@),
    ensures
        color_fragment(Color::Hex(s)) == color_fragment(Color::Rgb(r, g, b)),
{
}

} // verus!
