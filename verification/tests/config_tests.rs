use bili_sync_fav::config::{
    parse_collection_id, validate, Credential, ConfigError, RawConfig, SmtpSettings,
    target_directories,
};

fn credential() -> Credential {
    Credential {
        sessdata: "sd".to_string(),
        bili_jct: "jct".to_string(),
        buvid3: "bv".to_string(),
        dedeuserid: "uid".to_string(),
        ac_time_value: "atv".to_string(),
    }
}

fn smtp() -> SmtpSettings {
    SmtpSettings {
        url: "smtps://smtp.example.com:465".to_string(),
        sender_email: "sender@example.com".to_string(),
        sender_password: Some("SECRET-REDACTED".to_string()),
        recipient_email: "recipient@example.com".to_string(),
    }
}

fn raw_config(interval: u64, list: Vec<(&str, &str)>) -> RawConfig {
    RawConfig {
        interval_seconds: interval,
        credential: credential(),
        smtp: smtp(),
        favorite_list: list
            .into_iter()
            .map(|(k, v)| (k.to_string(), v.to_string()))
            .collect(),
    }
}

#[test]
fn parse_plain_number() {
    assert_eq!(parse_collection_id("100"), Some(100));
    assert_eq!(parse_collection_id("0"), Some(0));
    assert_eq!(parse_collection_id("42"), Some(42));
}

#[test]
fn parse_signed_numbers() {
    assert_eq!(parse_collection_id("-5"), Some(-5));
    assert_eq!(parse_collection_id("+42"), Some(42));
    assert_eq!(parse_collection_id("-0"), Some(0));
}

#[test]
fn parse_extremes() {
    assert_eq!(parse_collection_id("9223372036854775807"), Some(i64::MAX));
    assert_eq!(parse_collection_id("-9223372036854775808"), Some(i64::MIN));
}

#[test]
fn parse_overflow_is_rejected() {
    assert_eq!(parse_collection_id("9223372036854775808"), None);
    assert_eq!(parse_collection_id("-9223372036854775809"), None);
    assert_eq!(parse_collection_id("99999999999999999999999999"), None);
}

#[test]
fn parse_malformed_is_rejected() {
    assert_eq!(parse_collection_id(""), None);
    assert_eq!(parse_collection_id("abc"), None);
    assert_eq!(parse_collection_id("12a"), None);
    assert_eq!(parse_collection_id("+"), None);
    assert_eq!(parse_collection_id("-"), None);
    assert_eq!(parse_collection_id(" 7"), None);
    assert_eq!(parse_collection_id("7 "), None);
    assert_eq!(parse_collection_id("--7"), None);
}

#[test]
fn validate_accepts_good_config() {
    let cfg = validate(raw_config(60, vec![("100", "./a"), ("200", "./b")])).unwrap();
    assert_eq!(cfg.interval_seconds, 60);
    assert_eq!(cfg.collections.len(), 2);
    assert_eq!(cfg.collections[0].id, 100);
    assert_eq!(cfg.collections[0].directory, "./a");
    assert_eq!(cfg.collections[1].id, 200);
    assert_eq!(cfg.collections[1].directory, "./b");
}

#[test]
fn validate_rejects_non_numeric_key() {
    // a key that is not a 64-bit identifier is a configuration error, found
    // before the loop ever starts
    let err = validate(raw_config(60, vec![("abc", "./x")])).unwrap_err();
    match err {
        ConfigError::InvalidCollectionId { key } => assert_eq!(key, "abc"),
        other => panic!("unexpected error: {:?}", variant_name(&other)),
    }
}

#[test]
fn validate_reports_first_bad_key() {
    let err = validate(raw_config(60, vec![("1", "./a"), ("x", "./b"), ("y", "./c")]))
        .unwrap_err();
    match err {
        ConfigError::InvalidCollectionId { key } => assert_eq!(key, "x"),
        _ => panic!("expected an invalid-key error"),
    }
}

#[test]
fn validate_rejects_zero_interval() {
    let err = validate(raw_config(0, vec![("100", "./a")])).unwrap_err();
    assert!(matches!(err, ConfigError::NonPositiveInterval));
}

#[test]
fn cookie_string_concatenates_all_fields() {
    let cookie = credential().cookie_string();
    assert_eq!(
        cookie,
        "SESSDATA=sd;bili_jct=jct;buvid3=bv;DedeUserID=uid;ac_time_value=atv"
    );
}

#[test]
fn target_directories_lists_every_collection() {
    let cfg = validate(raw_config(60, vec![("100", "./a"), ("200", "./b")])).unwrap();
    let dirs = target_directories(&cfg);
    assert_eq!(dirs, vec!["./a".to_string(), "./b".to_string()]);
}

fn variant_name(err: &ConfigError) -> &'static str {
    match err {
        ConfigError::NonPositiveInterval => "NonPositiveInterval",
        ConfigError::InvalidCollectionId { .. } => "InvalidCollectionId",
    }
}
