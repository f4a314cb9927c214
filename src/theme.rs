//! The theme table: for each theme, the style of the timer text and of the
//! quote text.

use vstd::prelude::*;

verus! {

/// A foreground colour.
#[derive(Clone, Copy, Debug, PartialEq, Eq, Structural)]
pub enum Color {
    Green,
    Red,
    Blue,
    Yellow,
    Magenta,
    Cyan,
    White,
    Black,
    Gray,
    Rgb(u8, u8, u8),
}

/// A text modifier.
#[derive(Clone, Copy, Debug, PartialEq, Eq, Structural)]
pub enum Emphasis {
    Bold,
    Italic,
    Reversed,
    Dim,
    Underlined,
}

/// How a piece of text is drawn.
#[derive(Clone, Copy, Debug, PartialEq, Eq, Structural)]
pub struct TextStyle {
    pub fg: Color,
    pub emphasis: Emphasis,
}

pub open spec fn style(fg: Color, emphasis: Emphasis) -> TextStyle {
    TextStyle { fg, emphasis }
}

/// The timer styles of themes 0 to 9.
pub open spec fn timer_styles() -> Seq<TextStyle> {
    seq![
        style(Color::Green, Emphasis::Bold),
        style(Color::Red, Emphasis::Bold),
        style(Color::Blue, Emphasis::Italic),
        style(Color::Yellow, Emphasis::Reversed),
        style(Color::Magenta, Emphasis::Dim),
        style(Color::Cyan, Emphasis::Bold),
        style(Color::White, Emphasis::Italic),
        style(Color::Black, Emphasis::Underlined),
        style(Color::Gray, Emphasis::Bold),
        style(Color::White, Emphasis::Reversed),
    ]
}

/// The quote styles of themes 0 to 9.
pub open spec fn quote_styles() -> Seq<TextStyle> {
    seq![
        style(Color::White, Emphasis::Italic),
        style(Color::Red, Emphasis::Bold),
        style(Color::Blue, Emphasis::Italic),
        style(Color::Magenta, Emphasis::Dim),
        style(Color::Yellow, Emphasis::Reversed),
        style(Color::Cyan, Emphasis::Bold),
        style(Color::Green, Emphasis::Italic),
        style(Color::Black, Emphasis::Underlined),
        style(Color::Gray, Emphasis::Bold),
        style(Color::Rgb(100, 200, 100), Emphasis::Bold),
    ]
}

/// Entry `theme` of `table`, or entry 0 for a theme past its end.
pub open spec fn lookup(table: Seq<TextStyle>, theme: nat) -> TextStyle {
    if theme < table.len() {
        table[theme as int]
    } else {
        table[0]
    }
}

/// The style of the timer text in `theme`; an unknown theme draws as
/// theme 0.
pub fn get_timer_style(theme: usize) -> (r: TextStyle)
    ensures
        r == lookup(timer_styles(), theme as nat),
{
    let (fg, emphasis) = match theme {
        1 => (Color::Red, Emphasis::Bold),
        2 => (Color::Blue, Emphasis::Italic),
        3 => (Color::Yellow, Emphasis::Reversed),
        4 => (Color::Magenta, Emphasis::Dim),
        5 => (Color::Cyan, Emphasis::Bold),
        6 => (Color::White, Emphasis::Italic),
        7 => (Color::Black, Emphasis::Underlined),
        8 => (Color::Gray, Emphasis::Bold),
        9 => (Color::White, Emphasis::Reversed),
        _ => (Color::Green, Emphasis::Bold),
    };
    TextStyle { fg, emphasis }
}

/// The style of the quote text in `theme`; an unknown theme draws as
/// theme 0.
pub fn get_quote_style(theme: usize) -> (r: TextStyle)
    ensures
        r == lookup(quote_styles(), theme as nat),
{
    let (fg, emphasis) = match theme {
        1 => (Color::Red, Emphasis::Bold),
        2 => (Color::Blue, Emphasis::Italic),
        3 => (Color::Magenta, Emphasis::Dim),
        4 => (Color::Yellow, Emphasis::Reversed),
        5 => (Color::Cyan, Emphasis::Bold),
        6 => (Color::Green, Emphasis::Italic),
        7 => (Color::Black, Emphasis::Underlined),
        8 => (Color::Gray, Emphasis::Bold),
        9 => (Color::Rgb(100, 200, 100), Emphasis::Bold),
        _ => (Color::White, Emphasis::Italic),
    };
    TextStyle { fg, emphasis }
}

} // verus!
