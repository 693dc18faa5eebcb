//! Logging bootstrap decisions.
//!
//! Process-wide logging is initialized once, before anything else runs. The
//! library decides *whether* and *how* to initialize: at level `Off` no
//! backend is ever installed, so no log output can be produced; otherwise the
//! plan carries the maximum level and the output mode chosen by build
//! profile (machine-structured for production builds, human-readable
//! otherwise). Installing the backend itself is a side effect that lives
//! outside the library and is best-effort: its failure aborts nothing.

use vstd::prelude::*;
use crate::config::BuildVariant;

verus! {

/// Verbosity of the process-wide logger.
#[derive(Clone, Copy, Debug, PartialEq, Eq, Structural)]
pub enum LogLevel {
    Off,
    Error,
    Warn,
    Info,
    Debug,
    Trace,
}

/// How the logging backend is to be installed.
#[derive(Clone, Copy, Debug, PartialEq, Eq, Structural)]
pub struct TracingPlan {
    /// The most verbose level that will be emitted.
    pub max_level: LogLevel,
    /// Machine-structured, non-colored output (production builds) rather
    /// than human-readable, colorized output (development builds).
    pub structured: bool,
}

/// Whether a verbosity level can be selected at all: the two most verbose
/// levels are disabled in hardware-isolated release builds.
pub open spec fn spec_log_level_available(
    level: LogLevel,
    variant: BuildVariant,
    debug_build: bool,
) -> bool {
    !(variant is HardwareIsolated && !debug_build && (level is Debug || level is Trace))
}

/// Whether `level` may be selected under the given build.
pub fn log_level_available(level: LogLevel, variant: BuildVariant, debug_build: bool) -> (r: bool)
    ensures
        r == spec_log_level_available(level, variant, debug_build),
{
    match variant {
        BuildVariant::Standard => true,
        BuildVariant::HardwareIsolated => {
            if debug_build {
                true
            } else {
                match level {
                    LogLevel::Debug => false,
                    LogLevel::Trace => false,
                    _ => true,
                }
            }
        },
    }
}

/// Decide whether and how to initialize logging.
///
/// At level `Off`, no plan is returned: initialization is skipped entirely
/// and no log output is ever produced. At any other level the plan keeps
/// that level as the maximum and selects structured output exactly when the
/// build profile asks for it.
pub fn tracing_plan(level: LogLevel, structured_output: bool) -> (r: Option<TracingPlan>)
    ensures
        (level is Off) <==> r is None,
        r matches Some(p) ==> p.max_level == level && p.structured == structured_output,
{
    match level {
        LogLevel::Off => None,
        _ => Some(TracingPlan { max_level: level, structured: structured_output }),
    }
}

} // verus!
