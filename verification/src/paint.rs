//! Colorizing the header: a bold, colored piece of text is wrapped in a
//! fixed ANSI escape prefix and the reset suffix.

use vstd::prelude::*;
use crate::level::LevelColor;

verus! {

/// The ANSI foreground code of each display color.
pub open spec fn fg_code_rep(c: LevelColor) -> Seq<char> {
    match c {
        LevelColor::Purple => "35"@,
        LevelColor::Blue => "34"@,
        LevelColor::Green => "32"@,
        LevelColor::Yellow => "33"@,
        LevelColor::Red => "31"@,
    }
}

/// The escape prefix that turns on bold and the foreground color `c`.
pub open spec fn paint_prefix_rep(c: LevelColor) -> Seq<char> {
    "\u{1b}[1;"@ + fg_code_rep(c) + "m"@
}

/// The escape suffix that resets all styles.
pub open spec fn paint_reset_rep() -> Seq<char> {
    "\u{1b}[0m"@
}

/// `s` painted bold in the color `c`.
pub open spec fn painted_rep(c: LevelColor, s: Seq<char>) -> Seq<char> {
    paint_prefix_rep(c) + s + paint_reset_rep()
}

/// Relies on ansi_term::Style::paint with bold and a foreground color
/// set: the painted text is the fixed prefix `ESC[1;<fg>m`, the text
/// itself, and the reset suffix `ESC[0m`, with the foreground codes 31
/// (red), 32 (green), 33 (yellow), 34 (blue) and 35 (purple).
#[verifier::external_body]
pub(crate) fn paint_bold(c: LevelColor, s: &str) -> (r: String)
    ensures
        r@ == painted_rep(c, s@),
{
    let colour = match c {
        LevelColor::Purple => ansi_term::Colour::Purple,
        LevelColor::Blue => ansi_term::Colour::Blue,
        LevelColor::Green => ansi_term::Colour::Green,
        LevelColor::Yellow => ansi_term::Colour::Yellow,
        LevelColor::Red => ansi_term::Colour::Red,
    };
    ansi_term::Style::new().fg(colour).bold().paint(s).to_string()
}

} // verus!
