//! Severity filtering and the one-time registration of the backend as the
//! process's active log sink.

use vstd::prelude::*;

verus! {

/// Severity of a log record, from most severe (`Error`) to most verbose
/// (`Trace`).
#[derive(Clone, Copy, Debug, PartialEq, Eq, Structural)]
pub enum Severity {
    Error,
    Warn,
    Info,
    Debug,
    Trace,
}

impl Severity {
    /// Verbosity rank: 0 for the most severe level, growing toward `Trace`.
    pub open spec fn verbosity(self) -> int {
        match self {
            Severity::Error => 0,
            Severity::Warn => 1,
            Severity::Info => 2,
            Severity::Debug => 3,
            Severity::Trace => 4,
        }
    }

    /// The verbosity rank as a machine integer.
    pub fn rank(&self) -> (n: u8)
        ensures
            n == self.verbosity(),
    {
        match self {
            Severity::Error => 0,
            Severity::Warn => 1,
            Severity::Info => 2,
            Severity::Debug => 3,
            Severity::Trace => 4,
        }
    }
}

/// Whether a record at `level` is rendered under the threshold: records
/// strictly more verbose than the threshold are dropped before any buffer
/// work happens.
pub fn enabled(level: Severity, threshold: Severity) -> (b: bool)
    ensures
        b == (level.verbosity() <= threshold.verbosity()),
{
    level.rank() <= threshold.rank()
}

/// Failure of the one-time registration.
#[derive(Clone, Copy, Debug, PartialEq, Eq, Structural)]
pub enum InitError {
    /// A sink was registered before this call; the earlier registration is
    /// left in place.
    AlreadyInitialized,
}

/// Relies on `log::set_max_level`: stores the given filter as the facade's
/// process-wide maximum level; nothing is returned and no failure exists.
#[verifier::external_body]
fn set_max_level(threshold: Severity) {
    log::set_max_level(match threshold {
        Severity::Error => log::LevelFilter::Error,
        Severity::Warn => log::LevelFilter::Warn,
        Severity::Info => log::LevelFilter::Info,
        Severity::Debug => log::LevelFilter::Debug,
        Severity::Trace => log::LevelFilter::Trace,
    });
}

/// Registers this backend as the process's active log sink and installs the
/// default threshold, `Info`.
///
/// `register_sink` makes the claim on the process-wide sink slot (the
/// platform glue hands the facade its `log::Log` implementation there) and
/// reports whether the slot was free. Only after a successful claim is the
/// facade's maximum level set; a failed claim leaves every earlier
/// registration untouched and is surfaced as `AlreadyInitialized`.
pub fn init<F: FnOnce() -> bool>(register_sink: F) -> (r: Result<(), InitError>)
    requires
        call_requires(register_sink, ()),
    ensures
        r is Ok ==> call_ensures(register_sink, (), true),
        r is Err ==> call_ensures(register_sink, (), false),
        r is Err ==> r == Err::<(), InitError>(InitError::AlreadyInitialized),
{
    if register_sink() {
        set_max_level(Severity::Info);
        Ok(())
    } else {
        Err(InitError::AlreadyInitialized)
    }
}

} // verus!
