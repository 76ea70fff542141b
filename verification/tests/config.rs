use greenboot::config::{GreenbootConfig, LogLevel};

#[test]
fn default_budget_is_three() {
    assert_eq!(GreenbootConfig::set_default().max_reboot, 3);
}

#[test]
fn missing_configuration_falls_back_to_default() {
    assert_eq!(GreenbootConfig::get_config(None).max_reboot, 3);
}

#[test]
fn configured_budget_is_taken() {
    assert_eq!(GreenbootConfig::get_config(Some(7)).max_reboot, 7);
    assert_eq!(GreenbootConfig::get_config(Some(0)).max_reboot, 0);
    assert_eq!(GreenbootConfig::get_config(Some(-2)).max_reboot, -2);
}

#[test]
fn out_of_range_budget_falls_back_to_default() {
    assert_eq!(GreenbootConfig::get_config(Some(i64::MAX)).max_reboot, 3);
    assert_eq!(GreenbootConfig::get_config(Some(i64::MIN)).max_reboot, 3);
    assert_eq!(GreenbootConfig::get_config(Some(2147483648)).max_reboot, 3);
}

#[test]
fn log_levels_map_to_their_filters() {
    assert_eq!(LogLevel::Trace.to_log(), log::LevelFilter::Trace);
    assert_eq!(LogLevel::Debug.to_log(), log::LevelFilter::Debug);
    assert_eq!(LogLevel::Info.to_log(), log::LevelFilter::Info);
    assert_eq!(LogLevel::Warn.to_log(), log::LevelFilter::Warn);
    assert_eq!(LogLevel::Error.to_log(), log::LevelFilter::Error);
    assert_eq!(LogLevel::Off.to_log(), log::LevelFilter::Off);
}
