//! Colours and text styles that a renderer applies to its output.

use vstd::prelude::*;

verus! {

/// A terminal colour: one of the eight standard names, an entry of the
/// 256-colour palette, or a 24-bit value.
#[derive(Clone, Copy, Debug, PartialEq, Eq, Structural)]
pub enum Color {
    Black,
    Red,
    Green,
    Yellow,
    Blue,
    Purple,
    Cyan,
    White,
    /// An entry of the 256-colour palette.
    Fixed(u8),
    /// Red, green and blue components.
    RGB(u8, u8, u8),
}

/// How a piece of text is drawn: its colour, its background and its weight.
///
/// A style has no hidden state, so two styles are equal exactly when their
/// three fields are.
#[derive(Clone, Copy, Debug, PartialEq, Eq, Structural)]
pub struct Style {
    /// Colour of the text itself; `None` leaves the terminal's own.
    pub foreground: Option<Color>,
    /// Colour behind the text; `None` leaves the terminal's own.
    pub background: Option<Color>,
    /// Whether the text is drawn bold.
    pub is_bold: bool,
}

impl Color {
    /// A style with this colour as its foreground, no background, not bold.
    pub fn normal(self) -> (s: Style)
        ensures
            s == (Style { foreground: Some(self), background: None, is_bold: false }),
    {
        Style { foreground: Some(self), background: None, is_bold: false }
    }

    /// A style with this colour as its foreground and `background` behind
    /// it, not bold.
    pub fn on(self, background: Color) -> (s: Style)
        ensures
            s == (Style { foreground: Some(self), background: Some(background), is_bold: false }),
    {
        Style { foreground: Some(self), background: Some(background), is_bold: false }
    }
}

impl Style {
    /// The same colours, drawn bold.
    pub fn bold(self) -> (s: Style)
        ensures
            s == (Style { is_bold: true, ..self }),
    {
        Style { is_bold: true, ..self }
    }
}

impl Default for Style {
    /// The style that changes nothing: no colour, no background, not bold.
    fn default() -> (s: Style)
        ensures
            s == (Style { foreground: None, background: None, is_bold: false }),
    {
        Style { foreground: None, background: None, is_bold: false }
    }
}

} // verus!
