use optimization_eg551_practical::common::debug::DebugConfig;

#[test]
fn test_default_config() {
    let config = DebugConfig::default();
    assert!(config.verbose);
    assert!(config.show_timings);
}

#[test]
fn test_quiet_config() {
    let config = DebugConfig::quiet();
    assert!(!config.verbose);
    assert!(!config.show_timings);
}

#[test]
fn test_builder_methods() {
    let config = DebugConfig::new().with_verbose(false).with_timings(true);
    assert!(!config.verbose);
    assert!(config.show_timings);
}
