use hostmon::config::{resolve_reference, Config, LogLevel, StartupError};
use hostmon::monitor::Monitor;

fn config(overwrite: Option<&str>) -> Config {
    Config {
        check_interval: 60,
        overwrite_hostname: overwrite.map(|s| s.to_string()),
        service_name: "avahi-daemon.service".to_string(),
        log_level: LogLevel::Info,
    }
}

#[test]
fn override_wins_over_os_hostname() {
    let r = resolve_reference(
        &Some("myhost".to_string()),
        &Some("machine".to_string()),
    );
    assert_eq!(r, Ok("myhost".to_string()));
}

#[test]
fn override_is_trimmed() {
    let r = resolve_reference(&Some(" myhost \n".to_string()), &None);
    assert_eq!(r, Ok("myhost".to_string()));
}

#[test]
fn blank_override_falls_back_to_os() {
    let r = resolve_reference(&Some("   ".to_string()), &Some("machine".to_string()));
    assert_eq!(r, Ok("machine".to_string()));
}

#[test]
fn os_hostname_is_trimmed() {
    let r = resolve_reference(&None, &Some("machine \n".to_string()));
    assert_eq!(r, Ok("machine".to_string()));
}

#[test]
fn no_hostname_anywhere_is_fatal() {
    let r = resolve_reference(&None, &None);
    assert_eq!(r, Err(StartupError::HostnameUnavailable));
}

#[test]
fn empty_os_hostname_is_fatal() {
    let r = resolve_reference(&None, &Some("  ".to_string()));
    assert_eq!(r, Err(StartupError::HostnameUnavailable));
}

#[test]
fn monitor_from_config_resolves_reference() {
    let m = Monitor::from_config(&config(Some("myhost")), &Some("machine".to_string()))
        .expect("a hostname is available");
    assert_eq!(m.reference_hostname(), "myhost");
    assert_eq!(m.service_unit(), "avahi-daemon.service");
}

#[test]
fn monitor_from_config_without_hostname_fails() {
    let r = Monitor::from_config(&config(None), &None);
    assert!(matches!(r, Err(StartupError::HostnameUnavailable)));
}
