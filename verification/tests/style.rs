use album_tagger::style::{
    attributes_shim, color_shim, stylesheet_shim, Attributes, Color, ContentStyle, StyleSheet,
    TerminalAttributes, TerminalColor,
};

#[test]
fn named_colors_keep_their_palette_entry() {
    assert_eq!(color_shim(Color::Black), TerminalColor::Black);
    assert_eq!(color_shim(Color::LightRed), TerminalColor::Red);
    assert_eq!(color_shim(Color::DarkRed), TerminalColor::DarkRed);
    assert_eq!(color_shim(Color::LightGreen), TerminalColor::Green);
    assert_eq!(color_shim(Color::DarkGreen), TerminalColor::DarkGreen);
    assert_eq!(color_shim(Color::LightYellow), TerminalColor::Yellow);
    assert_eq!(color_shim(Color::DarkYellow), TerminalColor::DarkYellow);
    assert_eq!(color_shim(Color::LightBlue), TerminalColor::Blue);
    assert_eq!(color_shim(Color::DarkBlue), TerminalColor::DarkBlue);
    assert_eq!(color_shim(Color::LightMagenta), TerminalColor::Magenta);
    assert_eq!(color_shim(Color::DarkMagenta), TerminalColor::DarkMagenta);
    assert_eq!(color_shim(Color::LightCyan), TerminalColor::Cyan);
    assert_eq!(color_shim(Color::DarkCyan), TerminalColor::DarkCyan);
    assert_eq!(color_shim(Color::White), TerminalColor::White);
    assert_eq!(color_shim(Color::Grey), TerminalColor::Grey);
    assert_eq!(color_shim(Color::DarkGrey), TerminalColor::DarkGrey);
}

#[test]
fn true_and_indexed_colors_keep_their_numbers() {
    assert_eq!(
        color_shim(Color::Rgb { r: 1, g: 200, b: 255 }),
        TerminalColor::Rgb { r: 1, g: 200, b: 255 }
    );
    assert_eq!(color_shim(Color::AnsiValue(0)), TerminalColor::AnsiValue(0));
    assert_eq!(color_shim(Color::AnsiValue(255)), TerminalColor::AnsiValue(255));
}

#[test]
fn attributes_carry_bold_and_italic_only() {
    for bold in [false, true] {
        for italic in [false, true] {
            assert_eq!(
                attributes_shim(Attributes { bold, italic }),
                TerminalAttributes { bold, italic, underlined: false }
            );
        }
    }
}

#[test]
fn empty_style_sheet_gives_empty_style() {
    let sheet = StyleSheet { fg: None, bg: None, att: Attributes { bold: false, italic: false } };
    assert_eq!(
        stylesheet_shim(sheet),
        ContentStyle {
            foreground_color: None,
            background_color: None,
            underline_color: None,
            attributes: TerminalAttributes { bold: false, italic: false, underlined: false },
        }
    );
}

#[test]
fn full_style_sheet_is_carried_over_without_underline() {
    let sheet = StyleSheet {
        fg: Some(Color::LightGreen),
        bg: Some(Color::Rgb { r: 10, g: 20, b: 30 }),
        att: Attributes { bold: true, italic: true },
    };
    let style = stylesheet_shim(sheet);
    assert_eq!(style.foreground_color, Some(TerminalColor::Green));
    assert_eq!(style.background_color, Some(TerminalColor::Rgb { r: 10, g: 20, b: 30 }));
    assert_eq!(style.underline_color, None);
    assert!(style.attributes.bold);
    assert!(style.attributes.italic);
    assert!(!style.attributes.underlined);
}

#[test]
fn equal_style_sheets_give_equal_styles() {
    let a = StyleSheet {
        fg: Some(Color::LightCyan),
        bg: None,
        att: Attributes { bold: false, italic: true },
    };
    let b = StyleSheet {
        fg: Some(Color::LightCyan),
        bg: None,
        att: Attributes { bold: false, italic: true },
    };
    assert_eq!(stylesheet_shim(a), stylesheet_shim(b));
}
