//! Severity levels and their presentation: a fixed three-letter display
//! code, a display color, and the level name used by the event collector.

use vstd::prelude::*;

verus! {

/// A log record's severity, ordered from most to least verbose.
#[derive(Clone, Copy, Debug, PartialEq, Eq, Structural)]
pub enum Level {
    Trace,
    Debug,
    Info,
    Warn,
    Error,
}

/// The display color a level is painted with on the console.
#[derive(Clone, Copy, Debug, PartialEq, Eq, Structural)]
pub enum LevelColor {
    Purple,
    Blue,
    Green,
    Yellow,
    Red,
}

/// The fixed three-letter code shown in a record's header.
pub open spec fn code_spec(l: Level) -> Seq<char> {
    match l {
        Level::Trace => "TRC"@,
        Level::Debug => "DBG"@,
        Level::Info => "LOG"@,
        Level::Warn => "WRN"@,
        Level::Error => "ERR"@,
    }
}

/// The lower-case level name the event collector expects; note that
/// `Warn` is reported as `"warning"`, the collector's vocabulary.
pub open spec fn collector_name_spec(l: Level) -> Seq<char> {
    match l {
        Level::Trace => "trace"@,
        Level::Debug => "debug"@,
        Level::Info => "info"@,
        Level::Warn => "warning"@,
        Level::Error => "error"@,
    }
}

/// The color each level is painted with.
pub open spec fn color_spec(l: Level) -> LevelColor {
    match l {
        Level::Trace => LevelColor::Purple,
        Level::Debug => LevelColor::Blue,
        Level::Info => LevelColor::Green,
        Level::Warn => LevelColor::Yellow,
        Level::Error => LevelColor::Red,
    }
}

/// Returns the three-letter display code of `l`.
pub fn display_code(l: Level) -> (r: &'static str)
    ensures
        r@ == code_spec(l),
{
    match l {
        Level::Trace => "TRC",
        Level::Debug => "DBG",
        Level::Info => "LOG",
        Level::Warn => "WRN",
        Level::Error => "ERR",
    }
}

/// Returns the level name used in the collector's `level:` tag.
pub fn collector_level_name(l: Level) -> (r: &'static str)
    ensures
        r@ == collector_name_spec(l),
{
    match l {
        Level::Trace => "trace",
        Level::Debug => "debug",
        Level::Info => "info",
        Level::Warn => "warning",
        Level::Error => "error",
    }
}

/// Returns the display color of `l`.
pub fn display_color(l: Level) -> (r: LevelColor)
    ensures
        r == color_spec(l),
{
    match l {
        Level::Trace => LevelColor::Purple,
        Level::Debug => LevelColor::Blue,
        Level::Info => LevelColor::Green,
        Level::Warn => LevelColor::Yellow,
        Level::Error => LevelColor::Red,
    }
}

/// The display code is always one of the five fixed three-letter codes,
/// and is a function of the level alone.
pub proof fn lemma_display_code_fixed(l: Level)
    ensures
        code_spec(l) == "TRC"@ || code_spec(l) == "DBG"@ || code_spec(l) == "LOG"@
            || code_spec(l) == "WRN"@ || code_spec(l) == "ERR"@,
        code_spec(l).len() == 3,
{
    reveal_strlit("TRC");
    reveal_strlit("DBG");
    reveal_strlit("LOG");
    reveal_strlit("WRN");
    reveal_strlit("ERR");
}

} // verus!
