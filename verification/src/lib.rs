//! A colorized, aligned console log formatter with a best-effort event
//! side channel: each record is rendered as a `[CODE H:MM:SS.mmm module]`
//! header followed by its message, continuation lines indented under the
//! header, and every record that carries a module path is forwarded as an
//! event to a statsd collector.

pub mod clock;
pub mod digits;
pub mod errors;
pub mod formatter;
pub mod forward;
pub mod level;
pub mod paint;
pub mod textfmt;
pub mod tracker;

use vstd::prelude::*;
use crate::errors::InitError;
use crate::formatter::RecordFormatter;

verus! {

#[verifier::external_type_specification]
#[verifier::external_body]
pub struct ExBuilder(env_logger::Builder);

#[verifier::external_type_specification]
#[verifier::external_body]
pub struct ExSetLoggerError(log::SetLoggerError);

/// Relies on env_logger::Builder::new: a builder with no filters and no
/// custom format yet.
#[verifier::external_body]
fn builder_new() -> env_logger::Builder {
    env_logger::Builder::new()
}

/// Relies on env_logger::Builder::format: installs the given formatter's
/// `format_record` as the builder's per-record format callback.
#[verifier::external_body]
fn builder_set_format(b: &mut env_logger::Builder, f: RecordFormatter) {
    b.format(move |buf, record| f.format_record(buf, record));
}

/// Relies on env_logger::Builder::parse_env: reads the named environment
/// variable and, when it is set, applies its contents as filter
/// directives; when it is unset the facade's default threshold stays.
#[verifier::external_body]
fn builder_parse_env(b: &mut env_logger::Builder, var: &str) {
    b.parse_env(var);
}

/// Relies on env_logger::Builder::try_init: installs the built logger as
/// the process-wide logger, reporting an error when one was installed
/// before.
#[verifier::external_body]
fn builder_try_init(b: &mut env_logger::Builder) -> Result<(), log::SetLoggerError> {
    b.try_init()
}

/// Relies on env_logger::Builder::init: installs the built logger and
/// panics when a logger was installed before — the fail-fast startup
/// path.
#[verifier::external_body]
fn builder_init(b: &mut env_logger::Builder) {
    b.init();
}

/// Builds the formatting pipeline without installing it: a builder whose
/// format callback renders each record as this crate's console block and
/// forwards module-tagged records to the collector. Fails with
/// `CollectorConstruction` exactly when the collector client cannot be
/// constructed — surfaced here, never deferred to the first record.
pub fn formatted_builder() -> (r: Result<env_logger::Builder, InitError>)
    ensures
        r matches Err(e) ==> e == InitError::CollectorConstruction,
{
    match RecordFormatter::new() {
        Ok(f) => Ok(builder_around(f)),
        Err(e) => Err(e),
    }
}

/// A fresh builder whose format callback is the given formatter.
fn builder_around(f: RecordFormatter) -> env_logger::Builder {
    let mut b = builder_new();
    builder_set_format(&mut b, f);
    b
}

/// Builds the pipeline, applies the filter directives held by the named
/// environment variable (the facade's defaults when it is unset), and
/// installs it as the process-wide logger. Errs with
/// `AlreadyInitialized` when a logger was installed before, and with
/// `CollectorConstruction` when the collector client cannot be built;
/// there is no other failure.
pub fn try_init_custom_env(environment_variable_name: &str) -> (r: Result<(), InitError>)
    ensures
        r matches Err(e) ==> (e == InitError::AlreadyInitialized || e
            == InitError::CollectorConstruction),
{
    match formatted_builder() {
        Ok(mut b) => {
            builder_parse_env(&mut b, environment_variable_name);
            match builder_try_init(&mut b) {
                Ok(u) => Ok(u),
                Err(_) => Err(InitError::AlreadyInitialized),
            }
        },
        Err(e) => Err(e),
    }
}

/// As `try_init_custom_env`, reading the conventional `RUST_LOG`
/// variable.
pub fn try_init() -> (r: Result<(), InitError>)
    ensures
        r matches Err(e) ==> (e == InitError::AlreadyInitialized || e
            == InitError::CollectorConstruction),
{
    try_init_custom_env("RUST_LOG")
}

/// Installs the pipeline, reading filter directives from the named
/// environment variable — fail-fast startup: the call returns normally
/// exactly when `try_init_custom_env` would return `Ok`, and panics
/// otherwise (in the forwarder's fail-fast constructor when the
/// collector client cannot be constructed, in the facade when a logger
/// was installed before); no error is ever silently dropped.
pub fn init_custom_env(environment_variable_name: &str) {
    let mut b = builder_around(RecordFormatter::new_fail_fast());
    builder_parse_env(&mut b, environment_variable_name);
    builder_init(&mut b);
}

/// As `init_custom_env`, reading the conventional `RUST_LOG` variable:
/// returns normally exactly when `try_init` would return `Ok`, panics
/// otherwise.
pub fn init() {
    init_custom_env("RUST_LOG")
}

} // verus!
