use ap_telemetry::wifi::{
    build_ap_config, default_ap_config, validate, AuthMethod, NetworkParameters, ValidationError,
    DEFAULT_CHANNEL, MAX_CONNECTIONS,
};

fn text(len: usize) -> String {
    "a".repeat(len)
}

#[test]
fn identity_of_32_bytes_is_accepted() {
    let ssid = text(32);
    let params = validate(&ssid, None, 1).unwrap();
    assert_eq!(params.identity, ssid);
    assert_eq!(params.credential, "");
    assert_eq!(params.channel, 1);
    assert!(params.is_open());
}

#[test]
fn identity_of_33_bytes_is_too_long() {
    assert_eq!(validate(&text(33), None, 1), Err(ValidationError::IdentityTooLong));
}

#[test]
fn empty_identity_is_accepted() {
    assert!(validate("", None, 6).is_ok());
}

#[test]
fn identity_length_counts_bytes_not_characters() {
    // 17 two-byte characters: 34 bytes.
    let ssid = "é".repeat(17);
    assert_eq!(validate(&ssid, None, 1), Err(ValidationError::IdentityTooLong));
    // 16 of them: 32 bytes.
    let ssid = "é".repeat(16);
    assert!(validate(&ssid, None, 1).is_ok());
}

#[test]
fn credential_of_7_bytes_is_rejected() {
    assert_eq!(
        validate("net", Some(&text(7)), 1),
        Err(ValidationError::CredentialLengthInvalid)
    );
}

#[test]
fn credential_of_8_bytes_is_accepted() {
    let params = validate("net", Some(&text(8)), 1).unwrap();
    assert_eq!(params.credential, text(8));
    assert!(!params.is_open());
}

#[test]
fn credential_of_63_bytes_is_accepted() {
    let params = validate("net", Some(&text(63)), 1).unwrap();
    assert_eq!(params.credential.len(), 63);
}

#[test]
fn credential_of_64_bytes_is_rejected() {
    assert_eq!(
        validate("net", Some(&text(64)), 1),
        Err(ValidationError::CredentialLengthInvalid)
    );
}

#[test]
fn empty_credential_means_open_network() {
    let given_empty = validate("net", Some(""), 3).unwrap();
    let absent = validate("net", None, 3).unwrap();
    assert_eq!(given_empty, absent);
    assert!(absent.is_open());
}

#[test]
fn channel_0_is_rejected() {
    assert_eq!(validate("net", None, 0), Err(ValidationError::ChannelOutOfRange));
}

#[test]
fn channel_1_is_accepted() {
    assert_eq!(validate("net", None, 1).unwrap().channel, 1);
}

#[test]
fn channel_13_is_accepted() {
    assert_eq!(validate("net", None, 13).unwrap().channel, 13);
}

#[test]
fn channel_14_is_rejected() {
    assert_eq!(validate("net", None, 14), Err(ValidationError::ChannelOutOfRange));
    assert_eq!(validate("net", None, 255), Err(ValidationError::ChannelOutOfRange));
}

#[test]
fn first_broken_rule_wins() {
    assert_eq!(
        validate(&text(33), Some("short"), 0),
        Err(ValidationError::IdentityTooLong)
    );
    assert_eq!(
        validate("net", Some("short"), 0),
        Err(ValidationError::CredentialLengthInvalid)
    );
}

#[test]
fn validate_twice_gives_the_same_result() {
    let cases: Vec<(String, Option<String>, u8)> = vec![
        ("ESP32-S3-DEMO".to_string(), Some("password123".to_string()), 1),
        (text(33), None, 1),
        ("net".to_string(), Some("short".to_string()), 1),
        ("net".to_string(), None, 14),
    ];
    for (ssid, password, channel) in cases {
        let first = validate(&ssid, password.as_deref(), channel);
        let second = validate(&ssid, password.as_deref(), channel);
        assert_eq!(first, second);
    }
}

#[test]
fn default_parameters_are_accepted() {
    let params = validate("ESP32-S3-DEMO", Some("password123"), 1).unwrap();
    assert_eq!(
        params,
        NetworkParameters {
            identity: "ESP32-S3-DEMO".to_string(),
            credential: "password123".to_string(),
            channel: 1,
        }
    );
}

#[test]
fn protected_configuration_holds_the_parameters() {
    let config = build_ap_config("ESP32-S3-DEMO", Some("password123"), 6).ok().unwrap();
    assert_eq!(config.ssid.as_str(), "ESP32-S3-DEMO");
    assert_eq!(config.password.as_str(), "password123");
    assert_eq!(config.auth_method, AuthMethod::WPA2Personal);
    assert_eq!(config.channel, 6);
    assert!(!config.ssid_hidden);
    assert_eq!(config.max_connections, 4);
    assert_eq!(MAX_CONNECTIONS, 4);
}

#[test]
fn open_configuration_has_no_password() {
    let config = build_ap_config("open-net", None, 11).ok().unwrap();
    assert_eq!(config.ssid.as_str(), "open-net");
    assert_eq!(config.password.as_str(), "");
    assert_eq!(config.auth_method, AuthMethod::Open);
    let config = build_ap_config("open-net", Some(""), 11).ok().unwrap();
    assert_eq!(config.password.as_str(), "");
    assert_eq!(config.auth_method, AuthMethod::Open);
}

#[test]
fn configuration_at_the_bounds_fills_the_buffers() {
    let config = build_ap_config(&text(32), Some(&text(63)), 13).ok().unwrap();
    assert_eq!(config.ssid.as_str().len(), 32);
    assert_eq!(config.password.as_str().len(), 63);
}

#[test]
fn configuration_is_refused_as_validation_refuses() {
    assert_eq!(
        build_ap_config(&text(33), None, 1).err(),
        Some(ValidationError::IdentityTooLong)
    );
    assert_eq!(
        build_ap_config("net", Some(&text(64)), 1).err(),
        Some(ValidationError::CredentialLengthInvalid)
    );
    assert_eq!(
        build_ap_config("net", Some("password123"), 0).err(),
        Some(ValidationError::ChannelOutOfRange)
    );
}

#[test]
fn configuration_from_validated_parameters() {
    let params = validate("net", Some("12345678"), 2).unwrap();
    let config = params.ap_config();
    assert_eq!(config.ssid.as_str(), "net");
    assert_eq!(config.password.as_str(), "12345678");
    assert_eq!(config.channel, 2);
}

#[test]
fn validation_errors_have_distinct_messages() {
    let a = ValidationError::IdentityTooLong.message();
    let b = ValidationError::CredentialLengthInvalid.message();
    let c = ValidationError::ChannelOutOfRange.message();
    assert_eq!(a, "SSID too long (max 32 bytes)");
    assert_eq!(b, "WPA2 password must be 8..=63 bytes");
    assert_eq!(c, "channel must be 1..=13");
}

#[test]
fn default_configuration_is_the_protected_demo_network() {
    let config = default_ap_config();
    assert_eq!(config.ssid.as_str(), "ESP32-S3-DEMO");
    assert_eq!(config.password.as_str(), "password123");
    assert_eq!(config.auth_method, AuthMethod::WPA2Personal);
    assert_eq!(config.channel, 1);
    assert_eq!(DEFAULT_CHANNEL, 1);
    assert!(!config.ssid_hidden);
    assert_eq!(config.max_connections, 4);
}
