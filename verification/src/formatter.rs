//! The record formatter: reads the elapsed clock, renders one record as
//! a console block, forwards module-tagged records to the collector,
//! and writes the block to the destination in a single write.

use vstd::prelude::*;
use std::io::Write;
use crate::clock::elapsed_parts;
use crate::clock::now_time;
use crate::clock::time_rep;
use crate::errors::InitError;
use crate::forward::EventForwarder;
use crate::level::Level;
use crate::textfmt::build_event_title;
use crate::textfmt::build_tags;
use crate::textfmt::line_rep;
use crate::textfmt::opt_view;
use crate::textfmt::render_line;
use crate::clock::render_time;

verus! {

#[verifier::external_type_specification]
#[verifier::external_body]
pub struct ExRecord<'a>(log::Record<'a>);

#[verifier::external_type_specification]
#[verifier::external_body]
pub struct ExFormatter(env_logger::fmt::Formatter);

#[verifier::external_type_specification]
#[verifier::external_body]
pub struct ExIoError(std::io::Error);

/// Relies on log::Record::level: the record's severity, translated
/// variant for variant into this crate's `Level`.
#[verifier::external_body]
fn record_level(r: &log::Record<'_>) -> Level {
    match r.level() {
        log::Level::Trace => Level::Trace,
        log::Level::Debug => Level::Debug,
        log::Level::Info => Level::Info,
        log::Level::Warn => Level::Warn,
        log::Level::Error => Level::Error,
    }
}

/// Relies on log::Record::module_path_static: the module path of the
/// record's origin, when the record carries one — records emitted
/// through the facade's macros always carry it this way. A record built
/// by hand with a borrowed, non-static module path reads as `None` here
/// and is treated as module-less.
#[verifier::external_body]
fn record_module(r: &log::Record<'_>) -> Option<String> {
    r.module_path_static().map(|m| m.to_string())
}

/// Relies on log::Record::args: the record's message, formatted to text.
#[verifier::external_body]
fn record_text(r: &log::Record<'_>) -> String {
    format!("{}", r.args())
}

/// Relies on std::io::Write::write_fmt, through the `write!` macro, on
/// env_logger's destination buffer: hands the rendered block over in one
/// write and returns the io result unchanged.
#[verifier::external_body]
fn write_block(buf: &mut env_logger::fmt::Formatter, block: &str) -> Result<(), std::io::Error> {
    write!(buf, "{}", block)
}

/// Renders records for the console and forwards each record that
/// carries a module path to the event collector.
pub struct RecordFormatter {
    start: std::time::SystemTime,
    forwarder: EventForwarder,
}

impl RecordFormatter {
    /// A formatter whose elapsed-time display starts now, with a
    /// forwarder in the default configuration; fails with
    /// `CollectorConstruction` exactly when the forwarder does.
    pub fn new() -> (r: Result<RecordFormatter, InitError>)
        ensures
            r matches Err(e) ==> e == InitError::CollectorConstruction,
    {
        match EventForwarder::with_default_config() {
            Ok(f) => Ok(RecordFormatter { start: now_time(), forwarder: f }),
            Err(e) => Err(e),
        }
    }

    /// As `new`, panicking instead of returning the construction error
    /// — for the fail-fast initializers.
    pub fn new_fail_fast() -> RecordFormatter {
        RecordFormatter {
            start: now_time(),
            forwarder: EventForwarder::with_default_config_fail_fast(),
        }
    }

    /// A formatter whose elapsed-time display starts now, around the
    /// given forwarder.
    pub fn with_forwarder(forwarder: EventForwarder) -> RecordFormatter {
        RecordFormatter { start: now_time(), forwarder }
    }

    /// Renders the console block for one record and, first, when the
    /// record carries a module path, forwards it to the collector as an
    /// event titled `[CODE TIME] MODULE` with the level and module tags.
    /// The returned block is exactly the rendered line. By policy a
    /// forwarding failure is dropped here so that it can never stop the
    /// console write; callers that need to see such failures use the
    /// forwarder directly.
    pub fn emit(&self, l: Level, module: Option<&str>, message: &str, secs: u64, millis: u32) -> (r:
        String)
        requires
            millis < 1000,
        ensures
            r@ == line_rep(l, opt_view(module), message@, time_rep(secs as nat, millis as nat)),
    {
        if let Some(m) = module {
            let time = render_time(secs, millis);
            let title = build_event_title(l, time.as_str(), m);
            let tags = build_tags(l, m);
            let _ = self.forwarder.forward(title.as_str(), message, &tags);
        }
        render_line(l, module, message, secs, millis)
    }

    /// Formats one record into the destination buffer: the elapsed time
    /// is read from the clock (milliseconds truncated), the record's
    /// fields are read, and the rendered block is handed to the buffer
    /// in one write whose io result is returned to the caller unchanged
    /// — a broken destination propagates, it is never swallowed.
    pub fn format_record(&self, buf: &mut env_logger::fmt::Formatter, record: &log::Record<'_>)
        -> Result<(), std::io::Error> {
        let l = record_level(record);
        let module = record_module(record);
        let text = record_text(record);
        let parts = elapsed_parts(&self.start);
        let millis: u32 = parts.1 / 1_000_000;
        let block = match &module {
            Some(m) => self.emit(l, Some(m.as_str()), text.as_str(), parts.0, millis),
            None => self.emit(l, None, text.as_str(), parts.0, millis),
        };
        write_block(buf, block.as_str())
    }
}

} // verus!
