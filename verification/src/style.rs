//! Style adapter: turns a prompt style sheet into the style that the terminal
//! painter understands.
//!
//! Both vocabularies name the sixteen palette colours differently. Each colour
//! type therefore has a view into one shared model, [`Hue`], and the adapter is
//! specified as keeping that view.

use vstd::prelude::*;

verus! {

/// What a colour means on the terminal, whichever vocabulary names it.
pub enum Hue {
    /// The terminal's own default colour.
    Default,
    /// One of the sixteen palette colours, by its palette number.
    Palette(int),
    /// A true colour.
    TrueColor { r: int, g: int, b: int },
    /// An entry of the 256-colour table, by its number.
    Indexed(int),
}

/// A colour in the vocabulary of the prompts.
#[derive(Clone, Copy, Debug, PartialEq, Eq, Structural)]
pub enum Color {
    Black,
    LightRed,
    DarkRed,
    LightGreen,
    DarkGreen,
    LightYellow,
    DarkYellow,
    LightBlue,
    DarkBlue,
    LightMagenta,
    DarkMagenta,
    LightCyan,
    DarkCyan,
    White,
    Grey,
    DarkGrey,
    Rgb { r: u8, g: u8, b: u8 },
    AnsiValue(u8),
}

impl View for Color {
    type V = Hue;

    open spec fn view(&self) -> Hue {
        match *self {
            Color::Black => Hue::Palette(0),
            Color::DarkRed => Hue::Palette(1),
            Color::DarkGreen => Hue::Palette(2),
            Color::DarkYellow => Hue::Palette(3),
            Color::DarkBlue => Hue::Palette(4),
            Color::DarkMagenta => Hue::Palette(5),
            Color::DarkCyan => Hue::Palette(6),
            Color::Grey => Hue::Palette(7),
            Color::DarkGrey => Hue::Palette(8),
            Color::LightRed => Hue::Palette(9),
            Color::LightGreen => Hue::Palette(10),
            Color::LightYellow => Hue::Palette(11),
            Color::LightBlue => Hue::Palette(12),
            Color::LightMagenta => Hue::Palette(13),
            Color::LightCyan => Hue::Palette(14),
            Color::White => Hue::Palette(15),
            Color::Rgb { r, g, b } => Hue::TrueColor { r: r as int, g: g as int, b: b as int },
            Color::AnsiValue(v) => Hue::Indexed(v as int),
        }
    }
}

/// The text attributes that a prompt style sheet can ask for.
#[derive(Clone, Copy, Debug, PartialEq, Eq, Structural)]
pub struct Attributes {
    pub bold: bool,
    pub italic: bool,
}

/// A prompt style sheet: optional colours and a set of attributes.
#[derive(Clone, Copy, Debug, PartialEq, Eq, Structural)]
pub struct StyleSheet {
    pub fg: Option<Color>,
    pub bg: Option<Color>,
    pub att: Attributes,
}

/// A colour in the vocabulary of the terminal painter.
#[derive(Clone, Copy, Debug, PartialEq, Eq, Structural)]
pub enum TerminalColor {
    Reset,
    Black,
    DarkGrey,
    Red,
    DarkRed,
    Green,
    DarkGreen,
    Yellow,
    DarkYellow,
    Blue,
    DarkBlue,
    Magenta,
    DarkMagenta,
    Cyan,
    DarkCyan,
    White,
    Grey,
    Rgb { r: u8, g: u8, b: u8 },
    AnsiValue(u8),
}

impl View for TerminalColor {
    type V = Hue;

    open spec fn view(&self) -> Hue {
        match *self {
            TerminalColor::Reset => Hue::Default,
            TerminalColor::Black => Hue::Palette(0),
            TerminalColor::DarkRed => Hue::Palette(1),
            TerminalColor::DarkGreen => Hue::Palette(2),
            TerminalColor::DarkYellow => Hue::Palette(3),
            TerminalColor::DarkBlue => Hue::Palette(4),
            TerminalColor::DarkMagenta => Hue::Palette(5),
            TerminalColor::DarkCyan => Hue::Palette(6),
            TerminalColor::Grey => Hue::Palette(7),
            TerminalColor::DarkGrey => Hue::Palette(8),
            TerminalColor::Red => Hue::Palette(9),
            TerminalColor::Green => Hue::Palette(10),
            TerminalColor::Yellow => Hue::Palette(11),
            TerminalColor::Blue => Hue::Palette(12),
            TerminalColor::Magenta => Hue::Palette(13),
            TerminalColor::Cyan => Hue::Palette(14),
            TerminalColor::White => Hue::Palette(15),
            TerminalColor::Rgb { r, g, b } => Hue::TrueColor {
                r: r as int,
                g: g as int,
                b: b as int,
            },
            TerminalColor::AnsiValue(v) => Hue::Indexed(v as int),
        }
    }
}

/// The attributes of painted text that this library speaks of.
#[derive(Clone, Copy, Debug, PartialEq, Eq, Structural)]
pub struct TerminalAttributes {
    pub bold: bool,
    pub italic: bool,
    pub underlined: bool,
}

/// The style that the terminal painter applies to a piece of text.
#[derive(Clone, Copy, Debug, PartialEq, Eq, Structural)]
pub struct ContentStyle {
    pub foreground_color: Option<TerminalColor>,
    pub background_color: Option<TerminalColor>,
    pub underline_color: Option<TerminalColor>,
    pub attributes: TerminalAttributes,
}

/// The meaning of an optional prompt colour.
pub open spec fn hue_of(c: Option<Color>) -> Option<Hue> {
    match c {
        Some(c) => Some(c@),
        None => None,
    }
}

/// The meaning of an optional terminal colour.
pub open spec fn terminal_hue_of(c: Option<TerminalColor>) -> Option<Hue> {
    match c {
        Some(c) => Some(c@),
        None => None,
    }
}

/// `out` paints exactly what `sheet` asks for: the same colours, the same bold
/// and italic flags, and no underline of any kind.
pub open spec fn renders(sheet: StyleSheet, out: ContentStyle) -> bool {
    &&& terminal_hue_of(out.foreground_color) == hue_of(sheet.fg)
    &&& terminal_hue_of(out.background_color) == hue_of(sheet.bg)
    &&& out.underline_color is None
    &&& out.attributes.bold == sheet.att.bold
    &&& out.attributes.italic == sheet.att.italic
    &&& !out.attributes.underlined
}

/// The style that paints exactly what `sheet` asks for. There is one, and
/// only one: see [`law_rendering_is_determined`].
pub open spec fn rendered(sheet: StyleSheet) -> ContentStyle {
    choose|out: ContentStyle| renders(sheet, out)
}

/// Two terminal colours that mean the same are the same colour.
pub proof fn lemma_terminal_color_by_hue(a: TerminalColor, b: TerminalColor)
    requires
        a@ == b@,
    ensures
        a == b,
{
}

/// Colours are carried over one for one: prompt colours that differ are
/// named by terminal colours that differ, and none of them becomes the
/// terminal's default colour.
pub proof fn law_colors_map_one_to_one(
    a: Color,
    b: Color,
    out_a: TerminalColor,
    out_b: TerminalColor,
)
    requires
        out_a@ == a@,
        out_b@ == b@,
    ensures
        a != b ==> out_a != out_b,
        out_a != TerminalColor::Reset,
{
}

/// The adapter is a function of the style sheet's meaning alone: style sheets
/// with the same colours and attributes are rendered by the same style, and
/// that style never underlines.
pub proof fn law_rendering_is_determined(
    a: StyleSheet,
    b: StyleSheet,
    out_a: ContentStyle,
    out_b: ContentStyle,
)
    requires
        renders(a, out_a),
        renders(b, out_b),
        hue_of(a.fg) == hue_of(b.fg),
        hue_of(a.bg) == hue_of(b.bg),
        a.att == b.att,
    ensures
        out_a == out_b,
        out_a == rendered(a),
        out_a.underline_color is None,
        !out_a.attributes.underlined,
{
    assert(out_a == rendered(a)) by {
        lemma_option_terminal_color_by_hue(
            out_a.foreground_color,
            rendered(a).foreground_color,
        );
        lemma_option_terminal_color_by_hue(
            out_a.background_color,
            rendered(a).background_color,
        );
    }
    lemma_option_terminal_color_by_hue(out_a.foreground_color, out_b.foreground_color);
    lemma_option_terminal_color_by_hue(out_a.background_color, out_b.background_color);
}

proof fn lemma_option_terminal_color_by_hue(a: Option<TerminalColor>, b: Option<TerminalColor>)
    requires
        terminal_hue_of(a) == terminal_hue_of(b),
    ensures
        a == b,
{
    if a is Some && b is Some {
        lemma_terminal_color_by_hue(a->0, b->0);
    }
}

/// Names a prompt colour in the terminal painter's vocabulary.
pub fn color_shim(color: Color) -> (out: TerminalColor)
    ensures
        out@ == color@,
{
    match color {
        Color::Black => TerminalColor::Black,
        Color::LightRed => TerminalColor::Red,
        Color::DarkRed => TerminalColor::DarkRed,
        Color::LightGreen => TerminalColor::Green,
        Color::DarkGreen => TerminalColor::DarkGreen,
        Color::LightYellow => TerminalColor::Yellow,
        Color::DarkYellow => TerminalColor::DarkYellow,
        Color::LightBlue => TerminalColor::Blue,
        Color::DarkBlue => TerminalColor::DarkBlue,
        Color::LightMagenta => TerminalColor::Magenta,
        Color::DarkMagenta => TerminalColor::DarkMagenta,
        Color::LightCyan => TerminalColor::Cyan,
        Color::DarkCyan => TerminalColor::DarkCyan,
        Color::White => TerminalColor::White,
        Color::Grey => TerminalColor::Grey,
        Color::DarkGrey => TerminalColor::DarkGrey,
        Color::Rgb { r, g, b } => TerminalColor::Rgb { r, g, b },
        Color::AnsiValue(value) => TerminalColor::AnsiValue(value),
    }
}

/// Carries bold and italic over; nothing else is ever set.
pub fn attributes_shim(attributes: Attributes) -> (out: TerminalAttributes)
    ensures
        out.bold == attributes.bold,
        out.italic == attributes.italic,
        !out.underlined,
{
    let mut result = TerminalAttributes { bold: false, italic: false, underlined: false };
    if attributes.bold {
        result.bold = true;
    }
    if attributes.italic {
        result.italic = true;
    }
    result
}

/// Turns a prompt style sheet into the terminal painter's style.
pub fn stylesheet_shim(stylesheet: StyleSheet) -> (out: ContentStyle)
    ensures
        renders(stylesheet, out),
        out == rendered(stylesheet),
{
    let foreground_color = match stylesheet.fg {
        Some(color) => Some(color_shim(color)),
        None => None,
    };
    let background_color = match stylesheet.bg {
        Some(color) => Some(color_shim(color)),
        None => None,
    };
    let out = ContentStyle {
        foreground_color,
        background_color,
        underline_color: None,
        attributes: attributes_shim(stylesheet.att),
    };
    proof {
        law_rendering_is_determined(stylesheet, stylesheet, out, out);
    }
    out
}

} // verus!
