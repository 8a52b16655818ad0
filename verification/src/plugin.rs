//! The debug-only logging plugin plan.
//!
//! Whether the logging plugin is registered depends only on the build
//! configuration: exactly one registration under a debug configuration, none
//! under a release configuration.  The host performs the registration; this
//! module decides it.

use vstd::prelude::*;

verus! {

/// The least severity the logging plugin is asked to record.
#[derive(Clone, Copy, Debug, PartialEq, Eq)]
pub enum LogLevel {
    Error,
    Warn,
    Info,
    Debug,
    Trace,
}

/// The configuration handed to the host for one plugin registration.
#[derive(Clone, Copy, Debug, PartialEq, Eq)]
pub struct LogPluginConfig {
    pub min_level: LogLevel,
}

/// Decides the logging plugin registrations for a build configuration:
/// exactly one, at level `Info`, when `debug_build` holds, and none
/// otherwise.
pub fn log_plugin_plan(debug_build: bool) -> (r: Option<LogPluginConfig>)
    ensures
        debug_build ==> (r matches Some(c) && c.min_level == LogLevel::Info),
        !debug_build ==> r is None,
{
    if debug_build {
        Some(LogPluginConfig { min_level: LogLevel::Info })
    } else {
        None
    }
}

} // verus!
