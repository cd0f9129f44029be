//! The launcher's command-line options.
use vstd::prelude::*;

verus! {

/// The options the launcher was started with.
#[derive(Debug, Clone)]
pub struct Cli {
    /// The settings file to use.
    pub config_file: String,
    /// The least severe level that is logged: `error`, `warn`, `info`, `debug`, `trace` or `off`.
    pub log_level: String,
    /// Log to standard error instead of the log file.
    pub log_stderr: bool,
    /// The log file.
    pub log_file: String,
    /// Only log what comes from this module or crate.
    pub log_filter: Option<String>,
    /// Start in debug mode.
    pub debug: bool,
}

} // verus!
