//! The log verbosity surface: the fixed set of levels and the installation
//! of the chosen maximum level. The log sink itself is wired up by the
//! embedding, outside the library.

use vstd::prelude::*;

verus! {

/// The recognised log verbosity levels.
#[derive(Clone, Copy, PartialEq, Eq, Structural, Debug)]
pub enum LogLevel {
    Error,
    Warn,
    Info,
    Debug,
    Trace,
}

/// Relies on log::set_max_level: records the given maximum level in the
/// logging facade's global filter.
#[verifier::external_body]
fn set_max_level(level: LogLevel) {
    let filter = match level {
        LogLevel::Error => log::LevelFilter::Error,
        LogLevel::Warn => log::LevelFilter::Warn,
        LogLevel::Info => log::LevelFilter::Info,
        LogLevel::Debug => log::LevelFilter::Debug,
        LogLevel::Trace => log::LevelFilter::Trace,
    };
    log::set_max_level(filter);
}

/// Install the chosen verbosity level as the logging facade's maximum
/// level. The embedding installs the sink itself.
pub fn init_log(level: LogLevel) {
    set_max_level(level);
}

} // verus!
