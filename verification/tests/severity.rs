use ets_log::enabled;
use ets_log::Severity;

#[test]
fn levels_at_or_above_threshold_are_enabled() {
    assert!(enabled(Severity::Error, Severity::Info));
    assert!(enabled(Severity::Warn, Severity::Info));
    assert!(enabled(Severity::Info, Severity::Info));
}

#[test]
fn levels_more_verbose_than_threshold_are_dropped() {
    assert!(!enabled(Severity::Debug, Severity::Info));
    assert!(!enabled(Severity::Trace, Severity::Info));
    assert!(!enabled(Severity::Info, Severity::Warn));
}

#[test]
fn threshold_trace_enables_everything() {
    assert!(enabled(Severity::Error, Severity::Trace));
    assert!(enabled(Severity::Trace, Severity::Trace));
}
