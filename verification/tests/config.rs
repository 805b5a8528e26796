use fortify::config::{
    default_ban_duration, default_challenge_ttl, default_font_path, default_listen_addr, default_max_failures,
    default_max_requests, default_passport_ttl, default_redis_url, default_soft_lock, default_threat_level,
    generate_node_id, node_id_from, AppConfig, Args, CaptchaConfig, RateLimitConfig,
};
use fortify::constants::headers::{X_CIRCUIT_ID, X_NODE_ID, X_PASSPORT_TOKEN, X_THREAT_LEVEL};
use fortify::constants::redis_keys::{make_key, CLUSTER_NODE_PREFIX, METRICS_PREFIX, THREAT_LEVEL};
use fortify::constants::{CIRCUIT_TTL_SECS, CLUSTER_HEARTBEAT_INTERVAL_SECS, CLUSTER_NODE_TIMEOUT_SECS};
use fortify::text::{decimal_chars, parse_bounded, split_chars, split_whitespace};

#[test]
fn defaults() {
    assert_eq!(default_redis_url(), "redis://127.0.0.1:6379");
    assert_eq!(default_listen_addr(), "127.0.0.1:8888");
    assert_eq!(default_threat_level(), 5);
    assert_eq!(default_font_path(), "assets/fonts/DejaVuSans.ttf");
    assert_eq!(default_passport_ttl(), 600);
    assert_eq!(default_challenge_ttl(), 300);
    assert_eq!(default_max_requests(), 60);
    assert_eq!(default_max_failures(), 5);
    assert_eq!(default_soft_lock(), 1800);
    assert_eq!(default_ban_duration(), 3600);
    assert_eq!(CIRCUIT_TTL_SECS, 1800);
    assert_eq!(CLUSTER_HEARTBEAT_INTERVAL_SECS, 5);
    assert_eq!(CLUSTER_NODE_TIMEOUT_SECS, 15);
}

#[test]
fn default_configs() {
    let c = CaptchaConfig::default();
    assert_eq!((c.font_path.as_str(), c.passport_ttl_secs, c.challenge_ttl_secs), ("assets/fonts/DejaVuSans.ttf", 600, 300));
    let r = RateLimitConfig::default();
    assert_eq!(
        (r.max_requests_per_minute, r.max_failed_attempts, r.soft_lock_duration_secs, r.ban_duration_secs),
        (60, 5, 1800, 3600)
    );
    let a = AppConfig::default();
    assert_eq!(a.redis_url, "redis://127.0.0.1:6379");
    assert_eq!(a.listen_addr, "127.0.0.1:8888");
    assert_eq!(a.initial_threat_level, 5);
    assert!(!a.cluster_enabled);
    assert!(a.node_id.starts_with("node-"));
    assert_eq!(a.node_id.len(), 13);
}

#[test]
fn node_ids_are_eight_hex_digits() {
    assert_eq!(node_id_from(0), "node-00000000");
    assert_eq!(node_id_from(0xdead_beef), "node-deadbeef");
    assert_eq!(node_id_from(0x0000_0a0f), "node-00000a0f");
    assert_eq!(node_id_from(u32::MAX), "node-ffffffff");
    let id = generate_node_id();
    assert_eq!(id.len(), 13);
    assert!(id[5..].chars().all(|c| c.is_ascii_digit() || ('a'..='f').contains(&c)));
}

fn args(redis_url: Option<&str>, listen: Option<&str>) -> Args {
    Args {
        config: "config/fortify.toml".to_string(),
        redis_url: redis_url.map(|s| s.to_string()),
        listen: listen.map(|s| s.to_string()),
        log_level: "info".to_string(),
        json_logs: false,
    }
}

#[test]
fn command_line_overrides_the_file() {
    let mut file = AppConfig::default();
    file.redis_url = "redis://file".to_string();
    file.listen_addr = "file:1".to_string();
    file.initial_threat_level = 8;
    file.node_id = "n".to_string();
    let c = AppConfig::load(Some(file), &args(Some("redis://cli"), None));
    assert_eq!(c.redis_url, "redis://cli");
    assert_eq!(c.listen_addr, "file:1");
    assert_eq!(c.initial_threat_level, 8);
    assert_eq!(c.node_id, "n");
    let c = AppConfig::load(None, &args(None, Some("cli:2")));
    assert_eq!(c.redis_url, "redis://127.0.0.1:6379");
    assert_eq!(c.listen_addr, "cli:2");
    assert_eq!(c.initial_threat_level, 5);
}

#[test]
fn well_known_names() {
    assert_eq!(THREAT_LEVEL, "cerberus:threat_level");
    assert_eq!(make_key(CLUSTER_NODE_PREFIX, "n1"), "cluster:node:n1");
    assert_eq!(make_key(METRICS_PREFIX, "m"), "metrics:m");
    assert_eq!(X_CIRCUIT_ID, "X-Circuit-Id");
    assert_eq!(X_PASSPORT_TOKEN, "X-Passport-Token");
    assert_eq!(X_THREAT_LEVEL, "X-Threat-Level");
    assert_eq!(X_NODE_ID, "X-Node-Id");
}

fn chars(s: &str) -> Vec<char> {
    s.chars().collect()
}

#[test]
fn split_like_str_split() {
    for text in ["", ":", "a", "a:b", "a::b", ":a:", "a:b:c:d", "::::"] {
        let expected: Vec<Vec<char>> = text.split(':').map(chars).collect();
        assert_eq!(split_chars(&chars(text), ':'), expected, "{:?}", text);
    }
}

#[test]
fn split_whitespace_like_str_split_whitespace() {
    for text in ["", " ", "a", " a  b\t\nc ", "a\u{a0}b\u{3000}c", "a\u{200b}b", "\u{85}x\u{2028}"] {
        let expected: Vec<Vec<char>> = text.split_whitespace().map(chars).collect();
        assert_eq!(split_whitespace(&chars(text)), expected, "{:?}", text);
    }
}

#[test]
fn parse_like_from_str() {
    for text in ["0", "7", "+7", "007", "255", "256", "", "+", "-", "-1", "++1", "1+", " 1", "1 ", "٣", "18446744073709551615", "18446744073709551616", "99999999999999999999999"] {
        assert_eq!(parse_bounded(&chars(text), u8::MAX as u64), text.parse::<u8>().ok().map(|v| v as u64), "{:?}", text);
        assert_eq!(parse_bounded(&chars(text), u32::MAX as u64), text.parse::<u32>().ok().map(|v| v as u64), "{:?}", text);
        assert_eq!(parse_bounded(&chars(text), u64::MAX), text.parse::<u64>().ok(), "{:?}", text);
    }
}

#[test]
fn decimal_like_to_string() {
    for n in [0u64, 1, 9, 10, 11, 99, 100, 1_700_000_030, u64::MAX] {
        assert_eq!(decimal_chars(n), chars(&n.to_string()));
    }
}
