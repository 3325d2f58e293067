use rockery::settings::{port, spoof_host_header, Settings, SettingsError};

#[test]
fn spoofing_is_switched_on_by_1_or_true() {
    assert!(spoof_host_header(Some("1")));
    assert!(spoof_host_header(Some("true")));
    assert!(spoof_host_header(Some("TRUE")));
    assert!(spoof_host_header(Some("True")));
    assert!(!spoof_host_header(Some("0")));
    assert!(!spoof_host_header(Some("false")));
    assert!(!spoof_host_header(Some("yes")));
    assert!(!spoof_host_header(Some("")));
    assert!(!spoof_host_header(Some(" 1")));
    assert!(!spoof_host_header(None));
}

#[test]
fn ports_are_read_as_numbers() {
    assert_eq!(port(Some("3000"), 80), Some(3000));
    assert_eq!(port(Some("0"), 80), Some(0));
    assert_eq!(port(Some("65535"), 80), Some(65535));
    assert_eq!(port(Some("65536"), 80), None);
    assert_eq!(port(Some("-1"), 80), None);
    assert_eq!(port(Some("http"), 80), None);
    assert_eq!(port(Some(""), 80), None);
    assert_eq!(port(Some(" 80"), 80), None);
    assert_eq!(port(None, 80), Some(80));
    assert_eq!(port(None, 3333), Some(3333));
}

#[test]
fn settings_resolve_with_their_defaults() {
    let settings = Settings::resolve(None, None, Some("backend.test"), None, None).unwrap();
    assert_eq!(settings.rockery_host, "localhost");
    assert_eq!(settings.rockery_port, 3333);
    assert_eq!(settings.target_host, "backend.test");
    assert_eq!(settings.target_port, 80);
    assert!(!settings.spoof_host_header);
}

#[test]
fn settings_resolve_from_their_values() {
    let settings = Settings::resolve(
        Some("127.0.0.1"),
        Some("3000"),
        Some("127.0.0.1"),
        Some("5000"),
        Some("1"),
    ).unwrap();
    assert_eq!(settings.rockery_host, "127.0.0.1");
    assert_eq!(settings.rockery_port, 3000);
    assert_eq!(settings.target_host, "127.0.0.1");
    assert_eq!(settings.target_port, 5000);
    assert!(settings.spoof_host_header);
}

#[test]
fn settings_that_cannot_resolve_say_why() {
    assert_eq!(
        Settings::resolve(None, Some("x"), None, Some("y"), None).unwrap_err(),
        SettingsError::RockeryPort
    );
    assert_eq!(
        Settings::resolve(None, None, None, Some("y"), None).unwrap_err(),
        SettingsError::TargetHost
    );
    assert_eq!(
        Settings::resolve(None, None, Some("h"), Some("y"), None).unwrap_err(),
        SettingsError::TargetPort
    );
    assert_eq!(SettingsError::RockeryPort.message(), "ROCKERY_PORT is not a valid port number");
    assert_eq!(SettingsError::TargetHost.message(), "TARGET_HOST env variable is not set!");
    assert_eq!(SettingsError::TargetPort.message(), "TARGET_PORT is not a valid port number");
}

#[test]
fn a_port_is_digits_with_or_without_a_plus_sign() {
    assert_eq!(port(Some("+80"), 1), Some(80));
    assert_eq!(port(Some("0080"), 1), Some(80));
    assert_eq!(port(Some("00000000000000000000065535"), 1), Some(65535));
    assert_eq!(port(Some("+0"), 1), Some(0));
    assert_eq!(port(Some("+"), 1), None);
    assert_eq!(port(Some("++80"), 1), None);
    assert_eq!(port(Some("-0"), 1), None);
    assert_eq!(port(Some("8_0"), 1), None);
    assert_eq!(port(Some("80 "), 1), None);
    assert_eq!(port(Some("8.0"), 1), None);
    assert_eq!(port(Some("0x50"), 1), None);
    assert_eq!(port(Some("\u{668}\u{660}"), 1), None);
    assert_eq!(port(Some("99999"), 1), None);
    assert_eq!(port(Some("100000000000000000000"), 1), None);
}

#[test]
fn spoofing_reads_ascii_letters_in_any_case() {
    assert!(spoof_host_header(Some("tRuE")));
    assert!(!spoof_host_header(Some("tru\u{435}")));
    assert!(!spoof_host_header(Some("1 ")));
}
