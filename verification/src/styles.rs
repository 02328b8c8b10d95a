//! Text attributes: the fixed set of SGR style flags and their single-digit
//! ANSI codes.
use crate::numeral::{dec_of, u8_to_dec};
use vstd::prelude::*;

verus! {

/// A text attribute. Each maps to one fixed single-digit ANSI SGR code;
/// code 6 is skipped, matching the gap in the standard SGR table.
pub enum Styles {
    Reset,
    Bold,
    Dim,
    Italic,
    Underline,
    Blink,
    Reverse,
    Hidden,
    Strikethrough,
}

/// The fixed ANSI SGR code of a text attribute.
pub open spec fn style_code(s: Styles) -> nat {
    match s {
        Styles::Reset => 0,
        Styles::Bold => 1,
        Styles::Dim => 2,
        Styles::Italic => 3,
        Styles::Underline => 4,
        Styles::Blink => 5,
        Styles::Reverse => 7,
        Styles::Hidden => 8,
        Styles::Strikethrough => 9,
    }
}

/// The ANSI parameter fragment of a text attribute: its code as a
/// one-digit string.
pub open spec fn style_fragment(s: Styles) -> Seq<char> {
    dec_of(style_code(s))
}

impl Styles {
    /// The ANSI parameter fragment of this attribute, per `style_fragment`.
    pub fn to_ansi(&self) -> (r: String)
        ensures
            r@ == style_fragment(*self),
    {
        let code: u8 = match self {
            Styles::Reset => 0,
            Styles::Bold => 1,
            Styles::Dim => 2,
            Styles::Italic => 3,
            Styles::Underline => 4,
            Styles::Blink => 5,
            Styles::Reverse => 7,
            Styles::Hidden => 8,
            Styles::Strikethrough => 9,
        };
        u8_to_dec(code)
    }
}

} // verus!
