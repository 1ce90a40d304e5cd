use users_api::settings::{
    parse_port, value_or_default, Settings, DEFAULT_DATABASE_PATH, DEFAULT_DATABASE_URL,
    DEFAULT_PORT,
};

#[test]
fn defaults_are_the_documented_ones() {
    assert_eq!(DEFAULT_DATABASE_URL, "sqlite:users.db");
    assert_eq!(DEFAULT_DATABASE_PATH, "./users.db");
    assert_eq!(DEFAULT_PORT, "9989");
}

#[test]
fn unset_values_take_their_defaults() {
    let settings = Settings::resolve(None, None, None);
    assert_eq!(settings.database_url, "sqlite:users.db");
    assert_eq!(settings.database_path, "./users.db");
    assert_eq!(settings.port, "9989");
    assert_eq!(settings.port_number(), Some(9989));
}

#[test]
fn set_values_are_kept() {
    let settings = Settings::resolve(
        Some("sqlite::memory:".to_string()),
        Some("/mnt/efs/users.db".to_string()),
        Some("8080".to_string()),
    );
    assert_eq!(settings.database_url, "sqlite::memory:");
    assert_eq!(settings.database_path, "/mnt/efs/users.db");
    assert_eq!(settings.port, "8080");
    assert_eq!(settings.port_number(), Some(8080));
}

#[test]
fn each_value_takes_its_default_alone() {
    let settings = Settings::resolve(None, Some("db".to_string()), None);
    assert_eq!(settings.database_url, "sqlite:users.db");
    assert_eq!(settings.database_path, "db");
    assert_eq!(settings.port, "9989");
}

#[test]
fn value_or_default_prefers_what_is_set() {
    assert_eq!(value_or_default(Some("".to_string()), "d"), "");
    assert_eq!(value_or_default(Some("x".to_string()), "d"), "x");
    assert_eq!(value_or_default(None, "d"), "d");
}

#[test]
fn ports_in_range_are_read() {
    assert_eq!(parse_port("0"), Some(0));
    assert_eq!(parse_port("1"), Some(1));
    assert_eq!(parse_port("80"), Some(80));
    assert_eq!(parse_port("9989"), Some(9989));
    assert_eq!(parse_port("65535"), Some(65535));
}

#[test]
fn ports_may_have_a_plus_sign_and_leading_zeros() {
    assert_eq!(parse_port("+8080"), Some(8080));
    assert_eq!(parse_port("0080"), Some(80));
    assert_eq!(parse_port("+000000000000000000000000065535"), Some(65535));
}

#[test]
fn ports_out_of_range_are_refused() {
    assert_eq!(parse_port("65536"), None);
    assert_eq!(parse_port("70000"), None);
    assert_eq!(parse_port("4294967296"), None);
    assert_eq!(parse_port("99999999999999999999999999999999"), None);
}

#[test]
fn texts_that_are_no_number_are_refused() {
    assert_eq!(parse_port(""), None);
    assert_eq!(parse_port("+"), None);
    assert_eq!(parse_port("-1"), None);
    assert_eq!(parse_port("++1"), None);
    assert_eq!(parse_port("1+"), None);
    assert_eq!(parse_port(" 80"), None);
    assert_eq!(parse_port("80 "), None);
    assert_eq!(parse_port("8o"), None);
    assert_eq!(parse_port("0x50"), None);
    assert_eq!(parse_port("８０"), None);
}

#[test]
fn port_reading_agrees_with_the_standard_library() {
    let samples = [
        "", "+", "-", "0", "+0", "-0", "00", "9989", "65535", "65536", "065535", "+65535",
        "655350", "12a", "a12", "1 2", "١٢", "99999999999",
    ];
    for text in samples {
        assert_eq!(parse_port(text), text.parse::<u16>().ok(), "{:?}", text);
    }
}

#[test]
fn a_port_that_is_no_number_gives_none() {
    let settings = Settings::resolve(None, None, Some("http".to_string()));
    assert_eq!(settings.port_number(), None);
}
