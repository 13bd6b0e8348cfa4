//! The style descriptor: eight attribute flags and two optional colours.

use vstd::prelude::*;

use crate::colour::Colour;

verus! {

/// How a piece of text looks: its attributes and its colours. A colour that
/// is `None` is left as the terminal has it.
#[derive(Clone, Copy, Debug, PartialEq, Eq, Structural)]
pub struct Style {
    pub foreground: Option<Colour>,
    pub background: Option<Colour>,
    pub is_bold: bool,
    pub is_dimmed: bool,
    pub is_italic: bool,
    pub is_underline: bool,
    pub is_blink: bool,
    pub is_reverse: bool,
    pub is_hidden: bool,
    pub is_strikethrough: bool,
}

/// The style with no attribute and no colour.
pub open spec fn plain_style() -> Style {
    Style {
        foreground: None,
        background: None,
        is_bold: false,
        is_dimmed: false,
        is_italic: false,
        is_underline: false,
        is_blink: false,
        is_reverse: false,
        is_hidden: false,
        is_strikethrough: false,
    }
}

/// Whether `s` sets nothing at all.
pub open spec fn spec_is_plain(s: Style) -> bool {
    s == plain_style()
}

impl Style {
    /// The plain style.
    pub fn new() -> (r: Style)
        ensures
            r == plain_style(),
    {
        Style {
            foreground: None,
            background: None,
            is_bold: false,
            is_dimmed: false,
            is_italic: false,
            is_underline: false,
            is_blink: false,
            is_reverse: false,
            is_hidden: false,
            is_strikethrough: false,
        }
    }

    /// Whether this style sets no attribute and no colour.
    pub fn is_plain(&self) -> (r: bool)
        ensures
            r == spec_is_plain(*self),
    {
        !(self.is_bold || self.is_dimmed || self.is_italic || self.is_underline || self.is_blink
            || self.is_reverse || self.is_hidden || self.is_strikethrough
            || self.foreground.is_some() || self.background.is_some())
    }

    /// This style, bold as well.
    pub fn bold(&self) -> (r: Style)
        ensures
            r == (Style { is_bold: true, ..*self }),
    {
        Style { is_bold: true, ..*self }
    }

    /// This style, dimmed as well.
    pub fn dimmed(&self) -> (r: Style)
        ensures
            r == (Style { is_dimmed: true, ..*self }),
    {
        Style { is_dimmed: true, ..*self }
    }

    /// This style, italic as well.
    pub fn italic(&self) -> (r: Style)
        ensures
            r == (Style { is_italic: true, ..*self }),
    {
        Style { is_italic: true, ..*self }
    }

    /// This style, underlined as well.
    pub fn underline(&self) -> (r: Style)
        ensures
            r == (Style { is_underline: true, ..*self }),
    {
        Style { is_underline: true, ..*self }
    }

    /// This style, blinking as well.
    pub fn blink(&self) -> (r: Style)
        ensures
            r == (Style { is_blink: true, ..*self }),
    {
        Style { is_blink: true, ..*self }
    }

    /// This style, in reverse video as well.
    pub fn reverse(&self) -> (r: Style)
        ensures
            r == (Style { is_reverse: true, ..*self }),
    {
        Style { is_reverse: true, ..*self }
    }

    /// This style, hidden as well.
    pub fn hidden(&self) -> (r: Style)
        ensures
            r == (Style { is_hidden: true, ..*self }),
    {
        Style { is_hidden: true, ..*self }
    }

    /// This style, struck through as well.
    pub fn strikethrough(&self) -> (r: Style)
        ensures
            r == (Style { is_strikethrough: true, ..*self }),
    {
        Style { is_strikethrough: true, ..*self }
    }

    /// This style with foreground colour `foreground`.
    pub fn fg(&self, foreground: Colour) -> (r: Style)
        ensures
            r == (Style { foreground: Some(foreground), ..*self }),
    {
        Style { foreground: Some(foreground), ..*self }
    }

    /// This style with background colour `background`.
    pub fn on(&self, background: Colour) -> (r: Style)
        ensures
            r == (Style { background: Some(background), ..*self }),
    {
        Style { background: Some(background), ..*self }
    }
}

impl Colour {
    /// The style with this foreground colour and nothing else.
    pub fn normal(self) -> (r: Style)
        ensures
            r == (Style { foreground: Some(self), ..plain_style() }),
    {
        Style { foreground: Some(self), ..Style::new() }
    }

    /// The style with this foreground colour, bold.
    pub fn bold(self) -> (r: Style)
        ensures
            r == (Style { foreground: Some(self), is_bold: true, ..plain_style() }),
    {
        Style { foreground: Some(self), is_bold: true, ..Style::new() }
    }

    /// The style with this foreground colour, dimmed.
    pub fn dimmed(self) -> (r: Style)
        ensures
            r == (Style { foreground: Some(self), is_dimmed: true, ..plain_style() }),
    {
        Style { foreground: Some(self), is_dimmed: true, ..Style::new() }
    }

    /// The style with this foreground colour, italic.
    pub fn italic(self) -> (r: Style)
        ensures
            r == (Style { foreground: Some(self), is_italic: true, ..plain_style() }),
    {
        Style { foreground: Some(self), is_italic: true, ..Style::new() }
    }

    /// The style with this foreground colour, underlined.
    pub fn underline(self) -> (r: Style)
        ensures
            r == (Style { foreground: Some(self), is_underline: true, ..plain_style() }),
    {
        Style { foreground: Some(self), is_underline: true, ..Style::new() }
    }

    /// The style with this foreground colour, blinking.
    pub fn blink(self) -> (r: Style)
        ensures
            r == (Style { foreground: Some(self), is_blink: true, ..plain_style() }),
    {
        Style { foreground: Some(self), is_blink: true, ..Style::new() }
    }

    /// The style with this foreground colour, in reverse video.
    pub fn reverse(self) -> (r: Style)
        ensures
            r == (Style { foreground: Some(self), is_reverse: true, ..plain_style() }),
    {
        Style { foreground: Some(self), is_reverse: true, ..Style::new() }
    }

    /// The style with this foreground colour, hidden.
    pub fn hidden(self) -> (r: Style)
        ensures
            r == (Style { foreground: Some(self), is_hidden: true, ..plain_style() }),
    {
        Style { foreground: Some(self), is_hidden: true, ..Style::new() }
    }

    /// The style with this foreground colour, struck through.
    pub fn strikethrough(self) -> (r: Style)
        ensures
            r == (Style { foreground: Some(self), is_strikethrough: true, ..plain_style() }),
    {
        Style { foreground: Some(self), is_strikethrough: true, ..Style::new() }
    }

    /// The style with this foreground colour on background `background`.
    pub fn on(self, background: Colour) -> (r: Style)
        ensures
            r == (Style { foreground: Some(self), background: Some(background), ..plain_style() }),
    {
        Style { foreground: Some(self), background: Some(background), ..Style::new() }
    }
}

impl Default for Style {
    fn default() -> (r: Style)
        ensures
            r == plain_style(),
    {
        Style::new()
    }
}

} // verus!
