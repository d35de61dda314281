use vk_bringup::diagnostics::classify_severity;
use vk_bringup::diagnostics::LogLevel;
use vk_bringup::diagnostics::SEVERITY_ERROR;
use vk_bringup::diagnostics::SEVERITY_INFO;
use vk_bringup::diagnostics::SEVERITY_VERBOSE;
use vk_bringup::diagnostics::SEVERITY_WARNING;

#[test]
fn severity_tiers_map_one_to_one_onto_log_levels() {
    assert_eq!(classify_severity(SEVERITY_ERROR).level, LogLevel::Error);
    assert_eq!(classify_severity(SEVERITY_WARNING).level, LogLevel::Warn);
    assert_eq!(classify_severity(SEVERITY_INFO).level, LogLevel::Info);
    assert_eq!(classify_severity(SEVERITY_VERBOSE).level, LogLevel::Trace);
}

#[test]
fn severity_above_a_tier_keeps_that_tier() {
    assert_eq!(classify_severity(SEVERITY_ERROR | SEVERITY_INFO).level, LogLevel::Error);
    assert_eq!(classify_severity(SEVERITY_WARNING | SEVERITY_VERBOSE).level, LogLevel::Warn);
    assert_eq!(classify_severity(u32::MAX).level, LogLevel::Error);
}

#[test]
fn severity_zero_maps_to_trace() {
    assert_eq!(classify_severity(0).level, LogLevel::Trace);
}

#[test]
fn sink_never_asks_the_driver_to_abort() {
    for severity in [0, SEVERITY_VERBOSE, SEVERITY_INFO, SEVERITY_WARNING, SEVERITY_ERROR] {
        assert!(!classify_severity(severity).abort);
    }
}
