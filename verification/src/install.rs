//! Registration of the formatter as the logging facade's global rendering
//! callback, through env_logger.
use vstd::prelude::*;
use crate::render::format_record;
use crate::width::WidthState;

verus! {

#[verifier::external_type_specification]
#[verifier::external_body]
/// env_logger::Builder, the facade's logger builder.
pub struct ExBuilder(env_logger::Builder);

#[verifier::external_type_specification]
#[verifier::external_body]
/// log::SetLoggerError, returned when a global logger is already installed.
pub struct ExSetLoggerError(log::SetLoggerError);

/// Returns an `env_logger::Builder` whose format callback is this crate's
/// formatter, for further customization; the global logger may only be
/// initialized once, and later initialization attempts return an error.
///
/// Relies on env_logger::Builder::new and Builder::format, on
/// std::time::Instant::now for the start instant, and on std::sync::Mutex
/// to share the width state between concurrent records; the installed
/// closure locks the state and calls the verified `format_record`.
#[verifier::external_body]
pub fn formatted_builder() -> (r: Result<env_logger::Builder, log::SetLoggerError>)
{
    let start = std::time::Instant::now();
    let state = std::sync::Mutex::new(WidthState { max_width: 0, since_increase: 0 });
    let mut builder = env_logger::Builder::new();
    builder.format(move |f, record| {
        let mut guard = state.lock().unwrap();
        format_record(f, record, &start, &mut guard)
    });
    Ok(builder)
}

/// Relies on env_logger::Builder::parse_env: reads filter directives for
/// the built logger from the named environment variable (and lets the
/// facade read its default write-style variable).
#[verifier::external_body]
pub(crate) fn parse_env_directives(builder: &mut env_logger::Builder, variable_name: &str)
{
    builder.parse_env(variable_name);
}

/// Relies on env_logger::Builder::try_init: installs the built logger as
/// the global logger, and returns an error exactly when a global logger is
/// already installed.
#[verifier::external_body]
pub(crate) fn builder_try_init(builder: &mut env_logger::Builder) -> (r: Result<
    (),
    log::SetLoggerError,
>)
{
    builder.try_init()
}

} // verus!
