use fortify::circuits::tracker::CircuitTracker;
use fortify::routes::passport::{validate_passport, ValidateAction, ValidateEvent};
use fortify::types::{CircuitInfo, CircuitStatus};

fn tracker() -> CircuitTracker {
    CircuitTracker::new(1800, 5, 900, 3600)
}

#[test]
fn keys_of_a_circuit() {
    assert_eq!(CircuitTracker::circuit_key("c1"), "circuit:c1");
    assert_eq!(CircuitTracker::rate_limit_key("c1"), "ratelimit:c1");
}

#[test]
fn first_request_creates_a_new_record() {
    let info = tracker().get_or_create_at(None, "c1", 100);
    assert_eq!(info.circuit_id, "c1");
    assert_eq!(info.status, CircuitStatus::New);
    assert_eq!(info.first_seen, 100);
    assert_eq!(info.last_seen, 100);
    let seen = tracker().get_or_create_at(Some(info), "c1", 200);
    assert_eq!(seen.first_seen, 100);
    assert_eq!(seen.last_seen, 200);
    let now = tracker().get_or_create(None, "c2");
    assert_eq!(now.first_seen, now.last_seen);
    assert_eq!(now.status, CircuitStatus::New);
}

#[test]
fn soft_lock_after_exactly_max_failures() {
    let t = tracker();
    let mut record: Option<CircuitInfo> = None;
    for attempt in 1..=5u32 {
        let (allowed, reason) = t.is_allowed(&record);
        assert!(allowed, "attempt {}", attempt);
        assert!(reason.is_none());
        let info = t.record_failure_at(record, "C1", 100 + attempt as i64);
        assert_eq!(info.failed_attempts, attempt);
        if attempt < 5 {
            assert_eq!(info.status, CircuitStatus::New);
            assert_eq!(t.save(&info).ttl_secs, 1800);
        } else {
            assert_eq!(info.status, CircuitStatus::SoftLocked);
            assert_eq!(t.save(&info).ttl_secs, 900);
        }
        assert_eq!(info.last_seen, 100 + attempt as i64);
        record = Some(info);
    }
    let (allowed, reason) = t.is_allowed(&record);
    assert!(!allowed);
    assert_eq!(reason.as_deref(), Some("Too many failed attempts. Try again later."));
}

#[test]
fn success_resets_failures() {
    let t = tracker();
    let mut info = t.record_failure_at(None, "c1", 1);
    info = t.record_failure_at(Some(info), "c1", 2);
    assert_eq!(info.failed_attempts, 2);
    let info = t.record_success_at(Some(info), "c1", "tok", 700, 100);
    assert_eq!(info.failed_attempts, 0);
    assert_eq!(info.successful_solves, 1);
    assert_eq!(info.status, CircuitStatus::Verified);
    assert_eq!(info.passport_token.as_deref(), Some("tok"));
    assert_eq!(info.passport_expires, Some(700));
    assert_eq!(info.last_seen, 100);
    assert_eq!(t.save(&info).ttl_secs, 1800);
    assert_eq!(t.save(&info).key, "circuit:c1");
}

#[test]
fn success_lifts_a_soft_lock() {
    let t = CircuitTracker::new(1800, 1, 900, 3600);
    let info = t.record_failure_at(None, "c1", 1);
    assert_eq!(info.status, CircuitStatus::SoftLocked);
    let info = t.record_success_at(Some(info), "c1", "tok", 700, 100);
    assert_eq!(info.status, CircuitStatus::Verified);
    assert_eq!(info.failed_attempts, 0);
}

#[test]
fn fifth_success_promotes_to_vip() {
    let t = tracker();
    let mut record: Option<CircuitInfo> = None;
    for solve in 1..=6u32 {
        let info = t.record_success_at(record, "c1", "tok", 700, solve as i64);
        assert_eq!(info.successful_solves, solve);
        if solve < 5 {
            assert_eq!(info.status, CircuitStatus::Verified);
        } else {
            assert_eq!(info.status, CircuitStatus::Vip);
        }
        record = Some(info);
    }
    let info = t.record_success(record, "c1", "tok2", 900);
    assert_eq!(info.status, CircuitStatus::Vip);
    assert_eq!(info.successful_solves, 7);
    assert_eq!(info.passport_token.as_deref(), Some("tok2"));
}

#[test]
fn ban_is_terminal() {
    let t = tracker();
    let info = t.ban_at(None, "C2", 50);
    assert_eq!(info.status, CircuitStatus::Banned);
    assert_eq!(info.last_seen, 50);
    assert_eq!(t.save(&info).ttl_secs, 3600);
    let record = Some(info);
    let (allowed, reason) = t.is_allowed(&record);
    assert!(!allowed);
    assert_eq!(reason.as_deref(), Some("Circuit is banned"));
    assert_eq!(
        validate_passport(ValidateEvent::Admission { allowed: Some(allowed) }),
        ValidateAction::Respond(403)
    );
    let info = t.record_success_at(record, "C2", "tok", 700, 60);
    assert_eq!(info.status, CircuitStatus::Banned);
    assert_eq!(info.failed_attempts, 0);
    assert_eq!(info.successful_solves, 1);
    let mut record = Some(info);
    for _ in 0..6 {
        let info = t.record_failure_at(record, "C2", 70);
        assert_eq!(info.status, CircuitStatus::Banned);
        record = Some(info);
    }
    let info = t.ban(record, "C2", "Admin ban");
    assert_eq!(info.status, CircuitStatus::Banned);
    assert_eq!(info.failed_attempts, 6);
}

#[test]
fn unknown_and_verified_circuits_are_allowed() {
    let t = tracker();
    assert_eq!(t.is_allowed(&None), (true, None));
    let info = t.record_success_at(None, "c1", "tok", 700, 1);
    assert_eq!(t.is_allowed(&Some(info)), (true, None));
}

#[test]
fn rate_limit_counts_down() {
    let t = tracker();
    assert_eq!(t.check_rate_limit(1, 60), (true, 59));
    assert_eq!(t.check_rate_limit(59, 60), (true, 1));
    assert_eq!(t.check_rate_limit(60, 60), (true, 0));
    assert_eq!(t.check_rate_limit(61, 60), (false, 0));
    assert_eq!(t.check_rate_limit(u32::MAX, 60), (false, 0));
    assert_eq!(t.check_rate_limit(0, 0), (true, 0));
    assert_eq!(t.check_rate_limit(1, 0), (false, 0));
    assert!(CircuitTracker::opens_window(1));
    assert!(!CircuitTracker::opens_window(2));
    assert!(!CircuitTracker::opens_window(0));
}

#[test]
fn sixty_first_request_in_a_window_is_limited() {
    let t = tracker();
    let mut served = 0;
    for count in 1..=61u32 {
        let (within, _) = t.check_rate_limit(count, 60);
        let action = validate_passport(ValidateEvent::RateLimit { allowed: Some(within) });
        let status = match action {
            ValidateAction::CheckPassport => match validate_passport(ValidateEvent::Passport { valid: Some(true) }) {
                ValidateAction::Respond(s) => s,
                other => panic!("unexpected action {:?}", other),
            },
            ValidateAction::Respond(s) => s,
            other => panic!("unexpected action {:?}", other),
        };
        if count <= 60 {
            assert_eq!(status, 200);
            served += 1;
        } else {
            assert_eq!(status, 429);
        }
    }
    assert_eq!(served, 60);
}

#[test]
fn counters_stay_at_the_end_of_their_range() {
    let t = tracker();
    let mut info = CircuitInfo::new_at("c1".to_string(), 0);
    info.failed_attempts = u32::MAX;
    info.successful_solves = u32::MAX;
    let failed = t.record_failure_at(Some(info.clone()), "c1", 1);
    assert_eq!(failed.failed_attempts, u32::MAX);
    assert_eq!(failed.status, CircuitStatus::SoftLocked);
    let solved = t.record_success_at(Some(info), "c1", "tok", 700, 1);
    assert_eq!(solved.successful_solves, u32::MAX);
    assert_eq!(solved.failed_attempts, 0);
    assert_eq!(solved.status, CircuitStatus::Vip);
    assert_eq!(t.save(&solved).ttl_secs, 1800);
}
