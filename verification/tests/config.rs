use stardelt_operator::config::{env_parsed, parse_u64, Config};

#[test]
fn defaults_when_unset() {
    let c = Config::from_env(None, None, None);
    assert_eq!(c.field_manager, "stardelt-operator");
    assert_eq!(c.resync_secs, 300);
    assert_eq!(c.poll_secs, 10);
}

#[test]
fn settings_override_defaults() {
    let c = Config::from_env(Some("fm".to_string()), Some("60".to_string()), Some("5".to_string()));
    assert_eq!(c.field_manager, "fm");
    assert_eq!(c.resync_secs, 60);
    assert_eq!(c.poll_secs, 5);
}

#[test]
fn invalid_numbers_fall_back() {
    let c = Config::from_env(None, Some("soon".to_string()), Some("-1".to_string()));
    assert_eq!(c.resync_secs, 300);
    assert_eq!(c.poll_secs, 10);
    assert_eq!(env_parsed(&Some(String::new()), 7), 7);
    assert_eq!(env_parsed(&None, 7), 7);
}

#[test]
fn parse_u64_matches_std() {
    for s in ["0", "42", "+5", "", "+", "abc", "4x", " 1", "007", "18446744073709551615", "18446744073709551616", "99999999999999999999", "-0"] {
        assert_eq!(parse_u64(s), s.parse::<u64>().ok(), "{s:?}");
    }
    assert_eq!(parse_u64("18446744073709551615"), Some(u64::MAX));
    assert_eq!(parse_u64("+5"), Some(5));
}
