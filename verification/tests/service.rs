use pragma::numtext::{parse_bool, parse_u64};
use pragma::service::{rate_limit_config, RateLimitConfig};

#[test]
fn parse_u64_reads_as_str_parse_does() {
    for s in ["0", "7", "+7", "0018446744073709551615", "18446744073709551615"] {
        assert_eq!(parse_u64(s), s.parse::<u64>().ok(), "{s}");
    }
    for s in ["", "+", "-1", "-0", "18446744073709551616", "1_000", " 1", "x"] {
        assert_eq!(parse_u64(s), None, "{s}");
    }
}

#[test]
fn parse_bool_reads_exact_words() {
    assert_eq!(parse_bool("true"), Some(true));
    assert_eq!(parse_bool("false"), Some(false));
    assert_eq!(parse_bool("True"), None);
    assert_eq!(parse_bool("1"), None);
}

#[test]
fn rate_limit_defaults() {
    assert_eq!(
        rate_limit_config(None, None, None, None),
        RateLimitConfig { enabled: true, per_second: 2, burst_size: 5, cleanup_interval_secs: 60 }
    );
}

#[test]
fn rate_limit_settings_from_environment() {
    assert_eq!(
        rate_limit_config(Some("false"), Some("10"), Some("20"), Some("+30")),
        RateLimitConfig { enabled: false, per_second: 10, burst_size: 20, cleanup_interval_secs: 30 }
    );
}

#[test]
fn unreadable_settings_fall_back_to_defaults() {
    assert_eq!(
        rate_limit_config(Some("no"), Some("-1"), Some("4294967296"), Some("soon")),
        RateLimitConfig { enabled: true, per_second: 2, burst_size: 5, cleanup_interval_secs: 60 }
    );
    assert_eq!(rate_limit_config(None, None, Some("4294967295"), None).burst_size, u32::MAX);
}
