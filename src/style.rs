//! The status bar's semantic styles and the terminal escape codes that draw
//! them.
use vstd::prelude::*;
use crate::editor::Status;

verus! {

/// One of the six semantic styles, or plain text.
#[derive(Clone, Copy, Debug, PartialEq, Eq, Structural)]
pub enum Style {
    /// Light background, dark text.
    Status,
    /// Amber background, dark text.
    Warn,
    /// Red background, light text.
    Error,
    /// Green background, light text.
    Good,
    /// Blue background, light text.
    Neutral,
    /// Accent background, light text.
    Critical,
    /// No styling.
    Plain,
}

/// The escape sequence that opens text in `s`.
pub open spec fn style_prefix(s: Style) -> Seq<char> {
    match s {
        Style::Status => "\x1b[107m\x1b[30m"@,
        Style::Warn => "\x1b[103m\x1b[30m"@,
        Style::Error => "\x1b[41m\x1b[97m"@,
        Style::Good => "\x1b[42m\x1b[97m"@,
        Style::Neutral => "\x1b[104m\x1b[97m"@,
        Style::Critical => "\x1b[102m\x1b[97m"@,
        Style::Plain => ""@,
    }
}

/// The escape sequence that closes text in `s`.
pub open spec fn style_suffix(s: Style) -> Seq<char> {
    match s {
        Style::Plain => ""@,
        _ => "\x1b[0m"@,
    }
}

impl Style {
    pub fn prefix(&self) -> (r: &'static str)
        ensures
            r@ == style_prefix(*self),
    {
        match self {
            Style::Status => "\x1b[107m\x1b[30m",
            Style::Warn => "\x1b[103m\x1b[30m",
            Style::Error => "\x1b[41m\x1b[97m",
            Style::Good => "\x1b[42m\x1b[97m",
            Style::Neutral => "\x1b[104m\x1b[97m",
            Style::Critical => "\x1b[102m\x1b[97m",
            Style::Plain => "",
        }
    }

    pub fn suffix(&self) -> (r: &'static str)
        ensures
            r@ == style_suffix(*self),
    {
        match self {
            Style::Plain => "",
            _ => "\x1b[0m",
        }
    }
}

/// The style of the status bar: the line counter in the status style,
/// the mode indicators in the neutral one.
pub fn status_style(s: Status) -> (r: Style)
    ensures
        r == match s {
            Status::Line(_) => Style::Status,
            _ => Style::Neutral,
        },
{
    match s {
        Status::Line(_) => Style::Status,
        _ => Style::Neutral,
    }
}

} // verus!
