use fortify::clock::now;
use fortify::error::CerberusError;
use fortify::types::{CaptchaDifficulty, CircuitInfo, CircuitStatus, ThreatLevel};

#[test]
fn threat_level_is_clamped() {
    assert_eq!(ThreatLevel::new(0).value(), 0);
    assert_eq!(ThreatLevel::new(10).value(), 10);
    assert_eq!(ThreatLevel::new(11).value(), 10);
    assert_eq!(ThreatLevel::new(255).value(), 10);
    assert_eq!(ThreatLevel::from(200u8).value(), 10);
    assert_eq!(ThreatLevel::from(3u8), ThreatLevel::new(3));
    assert_eq!(ThreatLevel::default().value(), 5);
    assert!(ThreatLevel::new(2) < ThreatLevel::new(3));
}

#[test]
fn threat_level_zero_requires_no_challenge() {
    let level = ThreatLevel::new(0);
    assert!(!level.requires_captcha());
    assert_eq!(level.captcha_count(), 0);
    assert!(ThreatLevel::new(1).requires_captcha());
}

#[test]
fn challenge_count_by_level() {
    let expected: [u8; 11] = [0, 1, 1, 1, 2, 2, 2, 3, 3, 3, 5];
    for level in 0..=10u8 {
        assert_eq!(ThreatLevel::new(level).captcha_count(), expected[level as usize]);
    }
}

#[test]
fn difficulty_by_level() {
    for level in 0..=3u8 {
        assert_eq!(ThreatLevel::new(level).captcha_difficulty(), CaptchaDifficulty::Easy);
    }
    for level in 4..=6u8 {
        assert_eq!(ThreatLevel::new(level).captcha_difficulty(), CaptchaDifficulty::Medium);
    }
    for level in 7..=9u8 {
        assert_eq!(ThreatLevel::new(level).captcha_difficulty(), CaptchaDifficulty::Hard);
    }
    assert_eq!(ThreatLevel::new(10).captcha_difficulty(), CaptchaDifficulty::Extreme);
}

#[test]
fn difficulty_grid_and_timeout() {
    assert_eq!(CaptchaDifficulty::Easy.grid_size(), (2, 2));
    assert_eq!(CaptchaDifficulty::Medium.grid_size(), (3, 3));
    assert_eq!(CaptchaDifficulty::Hard.grid_size(), (4, 4));
    assert_eq!(CaptchaDifficulty::Extreme.grid_size(), (5, 5));
    assert_eq!(CaptchaDifficulty::Easy.timeout_secs(), 60);
    assert_eq!(CaptchaDifficulty::Medium.timeout_secs(), 45);
    assert_eq!(CaptchaDifficulty::Hard.timeout_secs(), 30);
    assert_eq!(CaptchaDifficulty::Extreme.timeout_secs(), 20);
}

#[test]
fn new_circuit_info() {
    let info = CircuitInfo::new_at("c1".to_string(), 42);
    assert_eq!(info.circuit_id, "c1");
    assert_eq!(info.status, CircuitStatus::New);
    assert_eq!(info.failed_attempts, 0);
    assert_eq!(info.successful_solves, 0);
    assert_eq!(info.first_seen, 42);
    assert_eq!(info.last_seen, 42);
    assert!(info.passport_token.is_none());
    assert!(info.passport_expires.is_none());
    assert_eq!(CircuitStatus::default(), CircuitStatus::New);

    let before = now();
    let info = CircuitInfo::new("c2".to_string());
    assert!(info.first_seen >= before);
    assert_eq!(info.first_seen, info.last_seen);
    assert!(!info.has_valid_passport());
}

#[test]
fn passport_validity_of_a_record() {
    let mut info = CircuitInfo::new_at("c1".to_string(), 0);
    assert!(!info.has_valid_passport_at(0));
    info.passport_token = Some("t".to_string());
    assert!(!info.has_valid_passport_at(0));
    info.passport_expires = Some(100);
    assert!(info.has_valid_passport_at(99));
    assert!(!info.has_valid_passport_at(100));
    info.passport_expires = Some(i64::MAX);
    assert!(info.has_valid_passport());
    info.passport_token = None;
    assert!(!info.has_valid_passport());
}

#[test]
fn rate_limited_statuses() {
    let mut info = CircuitInfo::new_at("c1".to_string(), 0);
    assert!(!info.should_rate_limit());
    info.status = CircuitStatus::Verified;
    assert!(!info.should_rate_limit());
    info.status = CircuitStatus::Vip;
    assert!(!info.should_rate_limit());
    info.status = CircuitStatus::SoftLocked;
    assert!(info.should_rate_limit());
    info.status = CircuitStatus::Banned;
    assert!(info.should_rate_limit());
    let copy = info.clone();
    assert_eq!(copy.status, CircuitStatus::Banned);
    assert_eq!(copy.circuit_id, "c1");
}

fn all_errors() -> Vec<(CerberusError, u16, bool, &'static str)> {
    let d = || "x".to_string();
    vec![
        (CerberusError::Config(d()), 500, false, "Configuration error: x"),
        (CerberusError::Redis(d()), 503, true, "Redis error: x"),
        (CerberusError::Captcha(d()), 500, false, "CAPTCHA error: x"),
        (CerberusError::CircuitTracking(d()), 500, false, "Circuit tracking error: x"),
        (CerberusError::Auth(d()), 401, false, "Auth error: x"),
        (CerberusError::RateLimited(d()), 429, false, "Rate limit exceeded: x"),
        (CerberusError::Banned(d()), 403, false, "Circuit banned: x"),
        (CerberusError::InvalidInput(d()), 400, false, "Invalid input: x"),
        (CerberusError::Internal(d()), 500, false, "Internal error: x"),
        (CerberusError::Cluster(d()), 503, true, "Cluster error: x"),
        (CerberusError::Timeout(d()), 504, true, "Operation timed out: x"),
    ]
}

#[test]
fn error_status_codes_and_retry() {
    for (e, status, retry, message) in all_errors() {
        assert_eq!(e.status_code(), status);
        assert_eq!(e.is_retryable(), retry);
        assert_eq!(e.message(), message);
    }
}
