//! The escape sequences that set and clear a terminal's text attributes.

use crate::palette::AnsiColor;
use vstd::prelude::*;

verus! {

/// One instruction to the terminal.
#[derive(Clone, Copy, Debug, PartialEq, Eq, Structural)]
pub enum Directive {
    /// Use this foreground colour from here on.
    Foreground(AnsiColor),
    Bold,
    NoBold,
    Italic,
    NoItalic,
    Underline,
    NoUnderline,
    /// Drop the colour and every font attribute.
    Reset,
}

/// A font attribute that a directive can switch.
#[derive(Clone, Copy, Debug, PartialEq, Eq, Structural)]
pub enum Attribute {
    Bold,
    Italic,
    Underline,
}

impl AnsiColor {
    /// The sequence that selects this colour as the foreground: the default
    /// by its own code, the others by their number among the 256 colours.
    pub open spec fn foreground_code(self) -> Seq<char> {
        match self {
            AnsiColor::Default => "\x1b[39m"@,
            AnsiColor::Yellow => "\x1b[38;5;3m"@,
            AnsiColor::LightRed => "\x1b[38;5;9m"@,
            AnsiColor::Red => "\x1b[38;5;1m"@,
            AnsiColor::Magenta => "\x1b[38;5;5m"@,
            AnsiColor::LightMagenta => "\x1b[38;5;13m"@,
            AnsiColor::Blue => "\x1b[38;5;4m"@,
            AnsiColor::Cyan => "\x1b[38;5;6m"@,
            AnsiColor::Green => "\x1b[38;5;2m"@,
        }
    }
}

impl Directive {
    /// The characters that a terminal reads as this directive.
    pub open spec fn code(self) -> Seq<char> {
        match self {
            Directive::Foreground(color) => color.foreground_code(),
            Directive::Bold => "\x1b[1m"@,
            Directive::NoBold => "\x1b[21m"@,
            Directive::Italic => "\x1b[3m"@,
            Directive::NoItalic => "\x1b[23m"@,
            Directive::Underline => "\x1b[4m"@,
            Directive::NoUnderline => "\x1b[24m"@,
            Directive::Reset => "\x1b[m"@,
        }
    }

    /// The attribute that this directive sets or clears, if it is about one
    /// attribute alone.
    pub open spec fn attribute(self) -> Option<Attribute> {
        match self {
            Directive::Bold | Directive::NoBold => Some(Attribute::Bold),
            Directive::Italic | Directive::NoItalic => Some(Attribute::Italic),
            Directive::Underline | Directive::NoUnderline => Some(Attribute::Underline),
            Directive::Foreground(_) | Directive::Reset => None,
        }
    }

    /// Whether this directive switches an attribute on.
    pub open spec fn sets(self) -> bool {
        self == Directive::Bold || self == Directive::Italic || self == Directive::Underline
    }

    /// The directive that switches `attribute` on or off.
    pub open spec fn switch(attribute: Attribute, on: bool) -> Directive {
        match attribute {
            Attribute::Bold => if on { Directive::Bold } else { Directive::NoBold },
            Attribute::Italic => if on { Directive::Italic } else { Directive::NoItalic },
            Attribute::Underline => if on { Directive::Underline } else { Directive::NoUnderline },
        }
    }

    /// Spells this directive out as its escape sequence.
    pub fn escape(&self) -> (text: String)
        ensures
            text@ == self.code(),
    {
        match self {
            Directive::Foreground(AnsiColor::Default) => fg_default(),
            Directive::Foreground(AnsiColor::Yellow) => fg_yellow(),
            Directive::Foreground(AnsiColor::LightRed) => fg_light_red(),
            Directive::Foreground(AnsiColor::Red) => fg_red(),
            Directive::Foreground(AnsiColor::Magenta) => fg_magenta(),
            Directive::Foreground(AnsiColor::LightMagenta) => fg_light_magenta(),
            Directive::Foreground(AnsiColor::Blue) => fg_blue(),
            Directive::Foreground(AnsiColor::Cyan) => fg_cyan(),
            Directive::Foreground(AnsiColor::Green) => fg_green(),
            Directive::Bold => bold(),
            Directive::NoBold => no_bold(),
            Directive::Italic => italic(),
            Directive::NoItalic => no_italic(),
            Directive::Underline => underline(),
            Directive::NoUnderline => no_underline(),
            Directive::Reset => reset(),
        }
    }
}

/// No two directives share a code: what the terminal reads tells it which
/// directive was meant, and so which colour.
pub proof fn lemma_code_tells_directive(a: Directive, b: Directive)
    requires
        a.code() == b.code(),
    ensures
        a == b,
{
    reveal_strlit("\x1b[39m");
    reveal_strlit("\x1b[38;5;3m");
    reveal_strlit("\x1b[38;5;9m");
    reveal_strlit("\x1b[38;5;1m");
    reveal_strlit("\x1b[38;5;5m");
    reveal_strlit("\x1b[38;5;13m");
    reveal_strlit("\x1b[38;5;4m");
    reveal_strlit("\x1b[38;5;6m");
    reveal_strlit("\x1b[38;5;2m");
    reveal_strlit("\x1b[1m");
    reveal_strlit("\x1b[21m");
    reveal_strlit("\x1b[3m");
    reveal_strlit("\x1b[23m");
    reveal_strlit("\x1b[4m");
    reveal_strlit("\x1b[24m");
    reveal_strlit("\x1b[m");
    let m = a.code();
    let n = b.code();
    assert(m.len() == n.len());
    assert(m[2] == n[2]);
    assert(m[3] == n[3]);
    if m.len() > 7 {
        assert(m[7] == n[7]);
    }
}

/// What termion's `color::Fg(color::Reset)` displays: the sequence for the
/// default foreground.
#[verifier::external_body]
fn fg_default() -> (text: String)
    ensures
        text@ == "\x1b[39m"@,
{
    format!("{}", termion::color::Fg(termion::color::Reset))
}

/// What termion's `color::Fg(color::Yellow)` displays: colour 3 of 256.
#[verifier::external_body]
fn fg_yellow() -> (text: String)
    ensures
        text@ == "\x1b[38;5;3m"@,
{
    format!("{}", termion::color::Fg(termion::color::Yellow))
}

/// What termion's `color::Fg(color::LightRed)` displays: colour 9 of 256.
#[verifier::external_body]
fn fg_light_red() -> (text: String)
    ensures
        text@ == "\x1b[38;5;9m"@,
{
    format!("{}", termion::color::Fg(termion::color::LightRed))
}

/// What termion's `color::Fg(color::Red)` displays: colour 1 of 256.
#[verifier::external_body]
fn fg_red() -> (text: String)
    ensures
        text@ == "\x1b[38;5;1m"@,
{
    format!("{}", termion::color::Fg(termion::color::Red))
}

/// What termion's `color::Fg(color::Magenta)` displays: colour 5 of 256.
#[verifier::external_body]
fn fg_magenta() -> (text: String)
    ensures
        text@ == "\x1b[38;5;5m"@,
{
    format!("{}", termion::color::Fg(termion::color::Magenta))
}

/// What termion's `color::Fg(color::LightMagenta)` displays: colour 13 of
/// 256.
#[verifier::external_body]
fn fg_light_magenta() -> (text: String)
    ensures
        text@ == "\x1b[38;5;13m"@,
{
    format!("{}", termion::color::Fg(termion::color::LightMagenta))
}

/// What termion's `color::Fg(color::Blue)` displays: colour 4 of 256.
#[verifier::external_body]
fn fg_blue() -> (text: String)
    ensures
        text@ == "\x1b[38;5;4m"@,
{
    format!("{}", termion::color::Fg(termion::color::Blue))
}

/// What termion's `color::Fg(color::Cyan)` displays: colour 6 of 256.
#[verifier::external_body]
fn fg_cyan() -> (text: String)
    ensures
        text@ == "\x1b[38;5;6m"@,
{
    format!("{}", termion::color::Fg(termion::color::Cyan))
}

/// What termion's `color::Fg(color::Green)` displays: colour 2 of 256.
#[verifier::external_body]
fn fg_green() -> (text: String)
    ensures
        text@ == "\x1b[38;5;2m"@,
{
    format!("{}", termion::color::Fg(termion::color::Green))
}

/// What termion's `style::Bold` displays: attribute 1.
#[verifier::external_body]
fn bold() -> (text: String)
    ensures
        text@ == "\x1b[1m"@,
{
    format!("{}", termion::style::Bold)
}

/// What termion's `style::NoBold` displays: attribute 21.
#[verifier::external_body]
fn no_bold() -> (text: String)
    ensures
        text@ == "\x1b[21m"@,
{
    format!("{}", termion::style::NoBold)
}

/// What termion's `style::Italic` displays: attribute 3.
#[verifier::external_body]
fn italic() -> (text: String)
    ensures
        text@ == "\x1b[3m"@,
{
    format!("{}", termion::style::Italic)
}

/// What termion's `style::NoItalic` displays: attribute 23.
#[verifier::external_body]
fn no_italic() -> (text: String)
    ensures
        text@ == "\x1b[23m"@,
{
    format!("{}", termion::style::NoItalic)
}

/// What termion's `style::Underline` displays: attribute 4.
#[verifier::external_body]
fn underline() -> (text: String)
    ensures
        text@ == "\x1b[4m"@,
{
    format!("{}", termion::style::Underline)
}

/// What termion's `style::NoUnderline` displays: attribute 24.
#[verifier::external_body]
fn no_underline() -> (text: String)
    ensures
        text@ == "\x1b[24m"@,
{
    format!("{}", termion::style::NoUnderline)
}

/// What termion's `style::Reset` displays: the attribute list left empty,
/// which clears them all.
#[verifier::external_body]
fn reset() -> (text: String)
    ensures
        text@ == "\x1b[m"@,
{
    format!("{}", termion::style::Reset)
}

} // verus!
