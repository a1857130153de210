//! Colours and text styles, as the escape sequences that the terminal
//! library writes for them.

use vstd::prelude::*;

verus! {

/// The foreground colours that a report uses.
#[derive(Clone, Copy, Debug, PartialEq, Eq, Structural)]
pub enum Color {
    Yellow,
    Cyan,
    Green,
    Magenta,
    Blue,
    Red,
}

/// The escape sequence that selects a foreground colour: the colour's number
/// in the 256-colour table, framed as `ESC [ 38 ; 5 ; n m`.
pub open spec fn color_sequence(color: Color) -> Seq<char> {
    match color {
        Color::Red => "\x1B[38;5;1m"@,
        Color::Green => "\x1B[38;5;2m"@,
        Color::Yellow => "\x1B[38;5;3m"@,
        Color::Blue => "\x1B[38;5;4m"@,
        Color::Magenta => "\x1B[38;5;5m"@,
        Color::Cyan => "\x1B[38;5;6m"@,
    }
}

/// The escape sequence that switches bold text on.
pub open spec fn bold_sequence() -> Seq<char> {
    "\x1B[1m"@
}

/// The escape sequence that resets every colour and style.
pub open spec fn reset_sequence() -> Seq<char> {
    "\x1B[m"@
}

/// What a colour may come out as: its escape sequence, or nothing where the
/// environment has switched colours off.
pub open spec fn shows_color(text: Seq<char>, color: Color) -> bool {
    text == color_sequence(color) || text == Seq::<char>::empty()
}

/// The text that a terminal takes for each colour and style of a report.
#[derive(Debug, PartialEq, Eq)]
pub struct Palette {
    pub yellow: String,
    pub cyan: String,
    pub green: String,
    pub magenta: String,
    pub blue: String,
    pub red: String,
    pub bold: String,
    pub reset: String,
}

/// A palette as plain text.
pub struct PaletteView {
    pub yellow: Seq<char>,
    pub cyan: Seq<char>,
    pub green: Seq<char>,
    pub magenta: Seq<char>,
    pub blue: Seq<char>,
    pub red: Seq<char>,
    pub bold: Seq<char>,
    pub reset: Seq<char>,
}

impl PaletteView {
    /// The text that this palette holds for a colour.
    pub open spec fn color(self, color: Color) -> Seq<char> {
        match color {
            Color::Yellow => self.yellow,
            Color::Cyan => self.cyan,
            Color::Green => self.green,
            Color::Magenta => self.magenta,
            Color::Blue => self.blue,
            Color::Red => self.red,
        }
    }

    /// Whether this palette is one that the terminal library can give: the
    /// two styles are their escape sequences, and each colour is its
    /// escape sequence or empty.
    pub open spec fn is_terminal(self) -> bool {
        &&& self.bold == bold_sequence()
        &&& self.reset == reset_sequence()
        &&& forall|color: Color| shows_color(#[trigger] self.color(color), color)
    }
}

impl View for Palette {
    type V = PaletteView;

    open spec fn view(&self) -> PaletteView {
        PaletteView {
            yellow: self.yellow@,
            cyan: self.cyan@,
            green: self.green@,
            magenta: self.magenta@,
            blue: self.blue@,
            red: self.red@,
            bold: self.bold@,
            reset: self.reset@,
        }
    }
}

/// What termion's `Fg(Yellow)` formats as. termion writes `ESC [ 38;5;3 m`,
/// and writes nothing when the environment variable `NO_COLOR` holds a
/// non-empty value.
#[verifier::external_body]
fn fg_yellow() -> (r: String)
    ensures
        shows_color(r@, Color::Yellow),
{
    format!("{}", termion::color::Fg(termion::color::Yellow))
}

/// What termion's `Fg(Cyan)` formats as. termion writes `ESC [ 38;5;6 m`,
/// and writes nothing when the environment variable `NO_COLOR` holds a
/// non-empty value.
#[verifier::external_body]
fn fg_cyan() -> (r: String)
    ensures
        shows_color(r@, Color::Cyan),
{
    format!("{}", termion::color::Fg(termion::color::Cyan))
}

/// What termion's `Fg(Green)` formats as. termion writes `ESC [ 38;5;2 m`,
/// and writes nothing when the environment variable `NO_COLOR` holds a
/// non-empty value.
#[verifier::external_body]
fn fg_green() -> (r: String)
    ensures
        shows_color(r@, Color::Green),
{
    format!("{}", termion::color::Fg(termion::color::Green))
}

/// What termion's `Fg(Magenta)` formats as. termion writes
/// `ESC [ 38;5;5 m`, and writes nothing when the environment variable
/// `NO_COLOR` holds a non-empty value.
#[verifier::external_body]
fn fg_magenta() -> (r: String)
    ensures
        shows_color(r@, Color::Magenta),
{
    format!("{}", termion::color::Fg(termion::color::Magenta))
}

/// What termion's `Fg(Blue)` formats as. termion writes `ESC [ 38;5;4 m`,
/// and writes nothing when the environment variable `NO_COLOR` holds a
/// non-empty value.
#[verifier::external_body]
fn fg_blue() -> (r: String)
    ensures
        shows_color(r@, Color::Blue),
{
    format!("{}", termion::color::Fg(termion::color::Blue))
}

/// What termion's `Fg(Red)` formats as. termion writes `ESC [ 38;5;1 m`,
/// and writes nothing when the environment variable `NO_COLOR` holds a
/// non-empty value.
#[verifier::external_body]
fn fg_red() -> (r: String)
    ensures
        shows_color(r@, Color::Red),
{
    format!("{}", termion::color::Fg(termion::color::Red))
}

/// What termion's `style::Bold` formats as: always `ESC [ 1 m`.
#[verifier::external_body]
fn style_bold() -> (r: String)
    ensures
        r@ == bold_sequence(),
{
    format!("{}", termion::style::Bold)
}

/// What termion's `style::Reset` formats as: always `ESC [ m`.
#[verifier::external_body]
fn style_reset() -> (r: String)
    ensures
        r@ == reset_sequence(),
{
    format!("{}", termion::style::Reset)
}

impl Palette {
    /// The palette of the terminal library, as the environment of this
    /// process lets it come out.
    pub fn from_terminal() -> (r: Palette)
        ensures
            r@.is_terminal(),
    {
        Palette {
            yellow: fg_yellow(),
            cyan: fg_cyan(),
            green: fg_green(),
            magenta: fg_magenta(),
            blue: fg_blue(),
            red: fg_red(),
            bold: style_bold(),
            reset: style_reset(),
        }
    }

    /// The text that this palette holds for a colour.
    pub fn color(&self, color: Color) -> (r: &str)
        ensures
            r@ == self@.color(color),
    {
        match color {
            Color::Yellow => self.yellow.as_str(),
            Color::Cyan => self.cyan.as_str(),
            Color::Green => self.green.as_str(),
            Color::Magenta => self.magenta.as_str(),
            Color::Blue => self.blue.as_str(),
            Color::Red => self.red.as_str(),
        }
    }
}

/// Two different colours have different escape sequences.
pub proof fn lemma_color_sequences_differ(a: Color, b: Color)
    requires
        a != b,
    ensures
        color_sequence(a) != color_sequence(b),
{
    reveal_strlit("\x1B[38;5;1m");
    reveal_strlit("\x1B[38;5;2m");
    reveal_strlit("\x1B[38;5;3m");
    reveal_strlit("\x1B[38;5;4m");
    reveal_strlit("\x1B[38;5;5m");
    reveal_strlit("\x1B[38;5;6m");
    assert(color_sequence(a)[7] != color_sequence(b)[7]);
}

} // verus!
