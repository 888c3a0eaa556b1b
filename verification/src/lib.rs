//! A logger configured via an environment variable which writes to standard
//! error with colored, emoji-tagged, column-aligned output for log levels.
//!
//! Each record is rendered as one colorized line: a fixed per-level tag, an
//! elapsed-time badge, the shortened target label padded to an adaptive
//! column width, and the message with every embedded line break re-indented
//! under a repeated level tag.

use vstd::prelude::*;

pub mod elapsed;
pub mod install;
pub mod label;
pub mod level;
pub mod paint;
pub mod reindent;
pub mod render;
pub mod width;

pub use install::formatted_builder;
pub use width::WidthState;

verus! {

/// The failure of an initialization entry point.
#[derive(Clone, Copy, Debug, PartialEq, Eq, Structural)]
pub enum InitError {
    /// A global logger was already installed.
    AlreadyInitialized,
}

/// Relies on Result::unwrap: aborts with a panic exactly when registration
/// failed because a global logger was already installed, as the panicking
/// initialization entry points document.
#[verifier::external_body]
fn abort_on_error(r: Result<(), InitError>)
{
    r.unwrap();
}

/// Initializes the global logger with an emoji logger.
///
/// This should be called early in the execution of a Rust program, and the
/// global logger may only be initialized once. Future initialization
/// attempts will return an error.
///
/// Panics if the global logger has already been set.
pub fn init() {
    abort_on_error(try_init());
}

/// Initializes the global logger with an emoji logger.
///
/// This should be called early in the execution of a Rust program, and the
/// global logger may only be initialized once. Future initialization
/// attempts will return an error.
///
/// Fails to set the global logger if one has already been set.
pub fn try_init() -> (r: Result<(), InitError>)
    ensures
        r is Err ==> r == Err::<(), InitError>(InitError::AlreadyInitialized),
{
    try_init_custom_env("RUST_LOG")
}

/// Initializes the global logger with an emoji logger, reading filter
/// directives from a custom environment variable name.
///
/// This should be called early in the execution of a Rust program, and the
/// global logger may only be initialized once. Future initialization
/// attempts will return an error.
///
/// Panics if the global logger has already been set.
pub fn init_custom_env(environment_variable_name: &str) {
    abort_on_error(try_init_custom_env(environment_variable_name));
}

/// Initializes the global logger with an emoji logger, reading filter
/// directives from a custom environment variable name.
///
/// This should be called early in the execution of a Rust program, and the
/// global logger may only be initialized once. Future initialization
/// attempts will return an error.
///
/// Fails to set the global logger if one has already been set.
pub fn try_init_custom_env(environment_variable_name: &str) -> (r: Result<(), InitError>)
    ensures
        r is Err ==> r == Err::<(), InitError>(InitError::AlreadyInitialized),
{
    match install::formatted_builder() {
        Ok(mut builder) => {
            install::parse_env_directives(&mut builder, environment_variable_name);
            match install::builder_try_init(&mut builder) {
                Ok(done) => Ok(done),
                Err(_) => Err(InitError::AlreadyInitialized),
            }
        },
        Err(_) => Err(InitError::AlreadyInitialized),
    }
}

} // verus!
