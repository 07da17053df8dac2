//! Colour selection and resolution for the rendered prompt message.
//!
//! The prompt exposes the three selectable colours; before printing they are
//! resolved to concrete terminal colours, defaulting to white text on a black
//! background. Styling is applied to the terminal as a side effect while the
//! message is being formatted; it never changes the message text itself.

use term_painter::ToStyle;
use vstd::prelude::*;

verus! {

/// A colour the caller can select for the message's foreground or background.
#[derive(Clone, Copy, Debug, PartialEq, Eq, Structural)]
pub enum Colour {
    Red,
    Green,
    Blue,
}

/// A concrete terminal colour after resolution: a selected colour, or one of
/// the two defaults.
#[derive(Clone, Copy, Debug, PartialEq, Eq, Structural)]
pub enum PaintColour {
    Red,
    Green,
    Blue,
    White,
    Black,
}

/// An unset foreground resolves to white.
pub open spec fn resolve_fg(c: Option<Colour>) -> PaintColour {
    match c {
        Some(Colour::Red) => PaintColour::Red,
        Some(Colour::Green) => PaintColour::Green,
        Some(Colour::Blue) => PaintColour::Blue,
        None => PaintColour::White,
    }
}

/// An unset background resolves to black.
pub open spec fn resolve_bg(c: Option<Colour>) -> PaintColour {
    match c {
        Some(Colour::Red) => PaintColour::Red,
        Some(Colour::Green) => PaintColour::Green,
        Some(Colour::Blue) => PaintColour::Blue,
        None => PaintColour::Black,
    }
}

/// Styles `text` for the terminal in the given colours and returns the text
/// that is to be written.
///
/// Relies on term_painter: `Style::paint` wraps the text, and formatting the
/// wrapper writes exactly the wrapped text; the colours are applied to the
/// terminal (when there is one) as a side effect of the formatting and are
/// not part of the returned string.
#[verifier::external_body]
pub(crate) fn paint(fg: PaintColour, bg: PaintColour, text: &String) -> (r: String)
    ensures
        r@ == text@,
{
    let f = match fg {
        PaintColour::Red => term_painter::Color::Red,
        PaintColour::Green => term_painter::Color::Green,
        PaintColour::Blue => term_painter::Color::Blue,
        PaintColour::White => term_painter::Color::White,
        PaintColour::Black => term_painter::Color::Black,
    };
    let b = match bg {
        PaintColour::Red => term_painter::Color::Red,
        PaintColour::Green => term_painter::Color::Green,
        PaintColour::Blue => term_painter::Color::Blue,
        PaintColour::White => term_painter::Color::White,
        PaintColour::Black => term_painter::Color::Black,
    };
    format!("{}", f.bg(b).paint(text))
}

} // verus!
