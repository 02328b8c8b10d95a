//! A terminal text-styling builder: colors, text attributes and hyperlinks
//! rendered as ANSI escape sequences around a piece of text.
//!
//! Configure a [`Lipbalm`] through its chained setters, then call
//! [`Lipbalm::render`] to wrap a text in the matching SGR (and, with a
//! link, OSC-8) escape sequences. Every operation is total: malformed
//! hex colors degrade to black, and render never fails.
pub mod colors;
pub mod numeral;
pub mod styles;

use crate::colors::{color_fragment, named_code, Color};
use crate::numeral::{dec_of, lemma_dec_of_nonempty};
use crate::styles::{style_fragment, Styles};
use vstd::prelude::*;
use vstd::string::StringExecFns;

verus! {

/// A style builder. Call the setters to choose the desired styles and
/// then `render` to apply them to a text.
#[derive(Clone)]
pub struct Lipbalm {
    pub foreground: Option<Color>,
    pub background: Option<Color>,
    pub bold: bool,
    pub dim: bool,
    pub italic: bool,
    pub underline: bool,
    pub blink: bool,
    pub reverse: bool,
    pub hidden: bool,
    pub strikethrough: bool,
    pub link: Option<String>,
}

/// The foreground fragment of a color: palette, RGB and hex colors get
/// the `38;` selector prefix; a named color (or `Reset`) stands bare.
pub open spec fn fg_fragment(c: Color) -> Seq<char> {
    match c {
        Color::Rgb(_, _, _) | Color::C256(_) | Color::Hex(_) => seq!['3', '8', ';']
            + color_fragment(c),
        _ => color_fragment(c),
    }
}

/// The background fragment of a color: `Reset` stays the bare reset code,
/// palette, RGB and hex colors get the `48;` selector prefix, and a named
/// color becomes its foreground code plus 10 (the ANSI convention for
/// basic background colors).
pub open spec fn bg_fragment(c: Color) -> Seq<char> {
    match c {
        Color::Reset => dec_of(0),
        Color::Rgb(_, _, _) | Color::C256(_) | Color::Hex(_) => seq!['4', '8', ';']
            + color_fragment(c),
        _ => dec_of(named_code(c) + 10),
    }
}

/// Append one fragment to an accumulated parameter list, with a `;`
/// separator unless the list is still empty.
pub open spec fn joined(acc: Seq<char>, frag: Seq<char>) -> Seq<char> {
    if acc.len() == 0 {
        frag
    } else {
        acc + seq![';'] + frag
    }
}

/// The SGR parameter list of a builder: the fragments of whatever is
/// set, joined with `;`, in the fixed order foreground, background,
/// bold, dim, italic, underline, blink, reverse, hidden, strikethrough.
pub open spec fn params_of(b: Lipbalm) -> Seq<char> {
    let p = Seq::<char>::empty();
    let p = match b.foreground {
        Some(c) => joined(p, fg_fragment(c)),
        None => p,
    };
    let p = match b.background {
        Some(c) => joined(p, bg_fragment(c)),
        None => p,
    };
    let p = if b.bold {
        joined(p, style_fragment(Styles::Bold))
    } else {
        p
    };
    let p = if b.dim {
        joined(p, style_fragment(Styles::Dim))
    } else {
        p
    };
    let p = if b.italic {
        joined(p, style_fragment(Styles::Italic))
    } else {
        p
    };
    let p = if b.underline {
        joined(p, style_fragment(Styles::Underline))
    } else {
        p
    };
    let p = if b.blink {
        joined(p, style_fragment(Styles::Blink))
    } else {
        p
    };
    let p = if b.reverse {
        joined(p, style_fragment(Styles::Reverse))
    } else {
        p
    };
    let p = if b.hidden {
        joined(p, style_fragment(Styles::Hidden))
    } else {
        p
    };
    let p = if b.strikethrough {
        joined(p, style_fragment(Styles::Strikethrough))
    } else {
        p
    };
    p
}

/// A text wrapped in an SGR sequence: `ESC[<params>m<text>ESC[0m`.
pub open spec fn sgr_wrap(params: Seq<char>, text: Seq<char>) -> Seq<char> {
    seq!['\x1b', '['] + params + seq!['m'] + text + seq!['\x1b', '[', '0', 'm']
}

/// A text wrapped in an OSC-8 hyperlink sequence:
/// `ESC]8;;<link>ESC\<inner>ESC]8;;ESC\`.
pub open spec fn osc8_wrap(link: Seq<char>, inner: Seq<char>) -> Seq<char> {
    seq!['\x1b', ']', '8', ';', ';'] + link + seq!['\x1b', '\\'] + inner + seq!['\x1b', ']', '8',
        ';', ';', '\x1b', '\\']
}

/// What `render` returns for a builder and a text: the SGR-wrapped text,
/// wrapped once more in an OSC-8 sequence when a link is set.
pub open spec fn rendered(b: Lipbalm, text: Seq<char>) -> Seq<char> {
    match b.link {
        Some(l) => osc8_wrap(l@, sgr_wrap(params_of(b), text)),
        None => sgr_wrap(params_of(b), text),
    }
}

/// Append one fragment to the parameter list built so far, with a `;`
/// separator unless the list is still empty.
fn push_param(acc: String, frag: String) -> (r: String)
    ensures
        r@ == joined(acc@, frag@),
{
    proof {
        reveal_strlit(";");
    }
    if acc.as_str().is_empty() {
        proof {
            assert(acc@ =~= Seq::<char>::empty());
        }
        frag
    } else {
        let mut out = acc;
        out.append(";");
        out.append(frag.as_str());
        proof {
            assert(out@ =~= joined(acc@, frag@));
        }
        out
    }
}

impl Lipbalm {
    /// A fresh builder: no colors, every attribute off, no link.
    pub fn new() -> (r: Lipbalm)
        ensures
            r == (Lipbalm {
                foreground: None,
                background: None,
                bold: false,
                dim: false,
                italic: false,
                underline: false,
                blink: false,
                reverse: false,
                hidden: false,
                strikethrough: false,
                link: None,
            }),
    {
        Lipbalm {
            foreground: None,
            background: None,
            bold: false,
            dim: false,
            italic: false,
            underline: false,
            blink: false,
            reverse: false,
            hidden: false,
            strikethrough: false,
            link: None,
        }
    }

    /// Turn bold on or off; the last call wins.
    pub fn bold(self, yes: bool) -> (r: Lipbalm)
        ensures
            r == (Lipbalm { bold: yes, ..self }),
    {
        Lipbalm { bold: yes, ..self }
    }

    /// Turn dim on or off; the last call wins.
    pub fn dim(self, yes: bool) -> (r: Lipbalm)
        ensures
            r == (Lipbalm { dim: yes, ..self }),
    {
        Lipbalm { dim: yes, ..self }
    }

    /// Turn italic on or off; the last call wins.
    pub fn italic(self, yes: bool) -> (r: Lipbalm)
        ensures
            r == (Lipbalm { italic: yes, ..self }),
    {
        Lipbalm { italic: yes, ..self }
    }

    /// Turn underline on or off; the last call wins.
    pub fn underline(self, yes: bool) -> (r: Lipbalm)
        ensures
            r == (Lipbalm { underline: yes, ..self }),
    {
        Lipbalm { underline: yes, ..self }
    }

    /// Turn blink on or off; the last call wins.
    pub fn blink(self, yes: bool) -> (r: Lipbalm)
        ensures
            r == (Lipbalm { blink: yes, ..self }),
    {
        Lipbalm { blink: yes, ..self }
    }

    /// Turn reverse video on or off; the last call wins.
    pub fn reverse(self, yes: bool) -> (r: Lipbalm)
        ensures
            r == (Lipbalm { reverse: yes, ..self }),
    {
        Lipbalm { reverse: yes, ..self }
    }

    /// Turn hidden on or off; the last call wins.
    pub fn hidden(self, yes: bool) -> (r: Lipbalm)
        ensures
            r == (Lipbalm { hidden: yes, ..self }),
    {
        Lipbalm { hidden: yes, ..self }
    }

    /// Turn strikethrough on or off; the last call wins.
    pub fn strikethrough(self, yes: bool) -> (r: Lipbalm)
        ensures
            r == (Lipbalm { strikethrough: yes, ..self }),
    {
        Lipbalm { strikethrough: yes, ..self }
    }

    /// Set the foreground color; the last call wins.
    pub fn foreground(self, color: Color) -> (r: Lipbalm)
        ensures
            r == (Lipbalm { foreground: Some(color), ..self }),
    {
        Lipbalm { foreground: Some(color), ..self }
    }

    /// Set the background color; the last call wins.
    pub fn background(self, color: Color) -> (r: Lipbalm)
        ensures
            r == (Lipbalm { background: Some(color), ..self }),
    {
        Lipbalm { background: Some(color), ..self }
    }

    /// Set the hyperlink target; the last call wins.
    pub fn link(self, link: &str) -> (r: Lipbalm)
        ensures
            r.link matches Some(l) && l@ == link@,
            r == (Lipbalm { link: r.link, ..self }),
    {
        Lipbalm { link: Some(String::from_str(link)), ..self }
    }

    /// The foreground parameter fragment of the set foreground color.
    fn apply_foreground(&self) -> (r: String)
        requires
            self.foreground is Some,
        ensures
            r@ == fg_fragment(self.foreground->0),
    {
        let value = self.foreground.unwrap();
        let ansi = value.to_ansi();
        match value {
            Color::Rgb(_, _, _) | Color::C256(_) | Color::Hex(_) => {
                proof {
                    reveal_strlit("38;");
                }
                let mut out = String::from_str("38;");
                out.append(ansi.as_str());
                proof {
                    assert(out@ =~= fg_fragment(self.foreground->0));
                }
                out
            },
            _ => ansi,
        }
    }

    /// The background parameter fragment of the set background color
    /// (of `Reset` when none is set).
    fn apply_background(&self) -> (r: String)
        ensures
            r@ == bg_fragment(
                match self.background {
                    Some(c) => c,
                    None => Color::Reset,
                },
            ),
    {
        let value = match &self.background {
            Some(c) => *c,
            None => Color::Reset,
        };
        match value {
            Color::Reset => value.to_ansi(),
            Color::Rgb(_, _, _) | Color::C256(_) | Color::Hex(_) => {
                proof {
                    reveal_strlit("48;");
                }
                let ansi = value.to_ansi();
                let mut out = String::from_str("48;");
                out.append(ansi.as_str());
                proof {
                    assert(out@ =~= bg_fragment(value));
                }
                out
            },
            _ => {
                let code = crate::colors::named_code_byte(value);
                crate::numeral::u8_to_dec(code + 10)
            },
        }
    }

    /// Wrap `text` in the escape sequences for the chosen styles, per
    /// `rendered`: the `;`-joined parameter fragments inside
    /// `ESC[...m ... ESC[0m`, inside an OSC-8 pair when a link is set.
    pub fn render(&self, text: &str) -> (r: String)
        ensures
            r@ == rendered(*self, text@),
    {
        let mut params = String::new();
        if self.foreground.is_some() {
            params = push_param(params, self.apply_foreground());
        }
        if self.background.is_some() {
            params = push_param(params, self.apply_background());
        }
        if self.bold {
            params = push_param(params, Styles::Bold.to_ansi());
        }
        if self.dim {
            params = push_param(params, Styles::Dim.to_ansi());
        }
        if self.italic {
            params = push_param(params, Styles::Italic.to_ansi());
        }
        if self.underline {
            params = push_param(params, Styles::Underline.to_ansi());
        }
        if self.blink {
            params = push_param(params, Styles::Blink.to_ansi());
        }
        if self.reverse {
            params = push_param(params, Styles::Reverse.to_ansi());
        }
        if self.hidden {
            params = push_param(params, Styles::Hidden.to_ansi());
        }
        if self.strikethrough {
            params = push_param(params, Styles::Strikethrough.to_ansi());
        }
        proof {
            assert(params@ == params_of(*self));
        }
        let mut out = String::from_str("\x1b[");
        out.append(params.as_str());
        out.append("m");
        out.append(text);
        out.append("\x1b[0m");
        proof {
            reveal_strlit("\x1b[");
            reveal_strlit("m");
            reveal_strlit("\x1b[0m");
            assert(out@ =~= sgr_wrap(params_of(*self), text@));
        }
        match &self.link {
            Some(link) => {
                let mut wrapped = String::from_str("\x1b]8;;");
                wrapped.append(link.as_str());
                wrapped.append("\x1b\\");
                wrapped.append(out.as_str());
                wrapped.append("\x1b]8;;");
                wrapped.append("\x1b\\");
                proof {
                    reveal_strlit("\x1b]8;;");
                    reveal_strlit("\x1b\\");
                    assert(wrapped@ =~= rendered(*self, text@));
                }
                wrapped
            },
            None => out,
        }
    }
}

impl Default for Lipbalm {
    /// Same as `Lipbalm::new`: everything unset.
    fn default() -> (r: Lipbalm)
        ensures
            r == (Lipbalm {
                foreground: None,
                background: None,
                bold: false,
                dim: false,
                italic: false,
                underline: false,
                blink: false,
                reverse: false,
                hidden: false,
                strikethrough: false,
                link: None,
            }),
    {
        Lipbalm::new()
    }
}

/// Setters overwrite: setting the foreground twice leaves exactly the
/// state that setting it once to the later color does, so only the last
/// color reaches the rendered output.
pub proof fn lemma_last_foreground_wins(b: Lipbalm, c1: Color, c2: Color, text: Seq<char>)
    ensures
        (Lipbalm { foreground: Some(c2), ..(Lipbalm { foreground: Some(c1), ..b }) }) == (Lipbalm {
            foreground: Some(c2),
            ..b
        }),
        rendered((Lipbalm { foreground: Some(c2), ..(Lipbalm { foreground: Some(c1), ..b }) }), text)
            == rendered((Lipbalm { foreground: Some(c2), ..b }), text),
{
}

/// Toggles are fully reversible: setting an attribute twice leaves
/// exactly the state that setting it once to the later value does, so
/// turning it back off removes its fragment from the rendered output
/// entirely.
pub proof fn lemma_toggle_reversible(b: Lipbalm, y1: bool, y2: bool, text: Seq<char>)
    ensures
        (Lipbalm { bold: y2, ..(Lipbalm { bold: y1, ..b }) }) == (Lipbalm { bold: y2, ..b }),
        rendered((Lipbalm { bold: y2, ..(Lipbalm { bold: y1, ..b }) }), text) == rendered(
            (Lipbalm { bold: y2, ..b }),
            text,
        ),
{
}

/// No fragment is ever empty, so a parameter list joined by `joined`
/// never carries a leading, trailing or doubled `;` separator.
pub proof fn lemma_fragments_nonempty(c: Color, s: Styles)
    ensures
        fg_fragment(c).len() >= 1,
        bg_fragment(c).len() >= 1,
        style_fragment(s).len() >= 1,
{
    lemma_dec_of_nonempty(named_code(c));
    lemma_dec_of_nonempty(named_code(c) + 10);
    lemma_dec_of_nonempty(0);
    lemma_dec_of_nonempty(crate::styles::style_code(s));
}

} // verus!
