//! Semantic colours that keep widgets consistent without owning the terminal background.
use vstd::prelude::*;

use crate::value::Value;

verus! {

/// A colour by its red, green and blue parts.
#[derive(Clone, Copy, Debug, PartialEq, Eq, Structural)]
pub struct Color {
    pub red: u8,
    pub green: u8,
    pub blue: u8,
}

/// The colours by meaning.
#[derive(Clone, Copy, Debug, PartialEq, Eq, Structural)]
pub struct Theme {
    pub accent: Color,
    pub cyan: Color,
    pub green: Color,
    pub yellow: Color,
    pub red: Color,
    pub purple: Color,
    pub muted: Color,
    pub selection: Color,
    pub cursor_line: Color,
}

/// The dark-terminal palette uses accessible, distinct semantic hues.
pub open spec fn palette() -> Theme {
    Theme {
        accent: Color { red: 94, green: 173, blue: 255 },
        cyan: Color { red: 86, green: 182, blue: 194 },
        green: Color { red: 152, green: 195, blue: 121 },
        yellow: Color { red: 229, green: 192, blue: 123 },
        red: Color { red: 224, green: 108, blue: 117 },
        purple: Color { red: 198, green: 120, blue: 221 },
        muted: Color { red: 130, green: 140, blue: 153 },
        selection: Color { red: 42, green: 52, blue: 64 },
        cursor_line: Color { red: 30, green: 34, blue: 42 },
    }
}

/// The dark-terminal palette.
pub fn theme() -> (theme: Theme)
    ensures
        theme == palette(),
{
    Theme {
        accent: Color { red: 94, green: 173, blue: 255 },
        cyan: Color { red: 86, green: 182, blue: 194 },
        green: Color { red: 152, green: 195, blue: 121 },
        yellow: Color { red: 229, green: 192, blue: 123 },
        red: Color { red: 224, green: 108, blue: 117 },
        purple: Color { red: 198, green: 120, blue: 221 },
        muted: Color { red: 130, green: 140, blue: 153 },
        selection: Color { red: 42, green: 52, blue: 64 },
        cursor_line: Color { red: 30, green: 34, blue: 42 },
    }
}

/// How a piece of text looks.
#[derive(Clone, Copy, Debug, PartialEq, Eq, Structural)]
pub struct TextStyle {
    /// None keeps the terminal's own colour.
    pub foreground: Option<Color>,
    pub bold: bool,
    pub italic: bool,
    pub dim: bool,
}

impl DeepView for TextStyle {
    type V = TextStyle;

    open spec fn deep_view(&self) -> TextStyle {
        *self
    }
}

impl Value for TextStyle {
    fn duplicate(&self) -> (copy: TextStyle) {
        *self
    }

    fn same(&self, other: &TextStyle) -> (same: bool) {
        *self == *other
    }
}

/// Text without any style.
pub open spec fn plain_style() -> TextStyle {
    TextStyle { foreground: None, bold: false, italic: false, dim: false }
}

/// Text in a colour.
pub open spec fn colored_style(color: Color) -> TextStyle {
    TextStyle { foreground: Some(color), bold: false, italic: false, dim: false }
}

impl TextStyle {
    /// Text without any style.
    pub fn plain() -> (style: TextStyle)
        ensures
            style == plain_style(),
    {
        TextStyle { foreground: None, bold: false, italic: false, dim: false }
    }

    /// Text in a colour.
    pub fn colored(color: Color) -> (style: TextStyle)
        ensures
            style == colored_style(color),
    {
        TextStyle { foreground: Some(color), bold: false, italic: false, dim: false }
    }
}

} // verus!
