use greenboot::monitor::{poc_service_monitor, MonitorError, ServiceProbe};

fn probe(name: &str, exists: Option<bool>, enabled: Option<bool>) -> ServiceProbe {
    ServiceProbe { name: String::from(name), exists, enabled }
}

#[test]
fn missing_and_disabled_services_are_critical() {
    let probes = vec![
        probe("sshd", Some(false), None),
        probe("podman", Some(true), Some(false)),
        probe("chronyd", Some(true), Some(true)),
    ];
    match poc_service_monitor(&probes) {
        Err(MonitorError::Critical(bad)) => {
            assert_eq!(bad, vec![String::from("sshd"), String::from("podman")]);
        }
        other => panic!("expected a critical error, got {:?}", other),
    }
}

#[test]
fn missing_names_come_before_disabled_names() {
    let probes = vec![
        probe("a", Some(true), Some(false)),
        probe("b", Some(false), None),
    ];
    match poc_service_monitor(&probes) {
        Err(MonitorError::Critical(bad)) => {
            assert_eq!(bad, vec![String::from("b"), String::from("a")]);
        }
        other => panic!("expected a critical error, got {:?}", other),
    }
}

#[test]
fn enabled_services_are_auto_recoverable() {
    let probes = vec![
        probe("sshd", Some(true), Some(true)),
        probe("podman", Some(true), Some(true)),
    ];
    assert_eq!(poc_service_monitor(&probes), Err(MonitorError::AutoRecoverable));
}

#[test]
fn failed_queries_classify_as_nothing() {
    let probes = vec![
        probe("sshd", None, None),
        probe("podman", Some(true), None),
    ];
    assert_eq!(poc_service_monitor(&probes), Ok(()));
}

#[test]
fn monitor_messages_report_count_or_marker() {
    let probes = vec![
        probe("a", Some(false), None),
        probe("b", Some(true), Some(false)),
    ];
    match poc_service_monitor(&probes) {
        Err(err) => assert_eq!(err.message(), String::from("2")),
        Ok(()) => panic!("expected a critical error"),
    }
    let enabled = vec![probe("c", Some(true), Some(true))];
    match poc_service_monitor(&enabled) {
        Err(err) => assert_eq!(err.message(), String::from("-1")),
        Ok(()) => panic!("expected an auto-recoverable error"),
    }
}

#[test]
fn empty_service_set_passes() {
    assert_eq!(poc_service_monitor(&vec![]), Ok(()));
}

#[test]
fn critical_takes_precedence_over_auto_recoverable() {
    let probes = vec![
        probe("good", Some(true), Some(true)),
        probe("gone", Some(false), None),
    ];
    match poc_service_monitor(&probes) {
        Err(MonitorError::Critical(bad)) => {
            assert_eq!(bad, vec![String::from("gone")]);
        }
        other => panic!("expected a critical error, got {:?}", other),
    }
}
