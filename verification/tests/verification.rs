use fortify::captcha::generator::CaptchaGenerator;
use fortify::captcha::ammo_box::{AmmoBox, AmmoBoxConfig, PregenCaptcha};
use fortify::captcha::verification::{answers_match, Assessment, CaptchaVerifier};
use fortify::captcha::StoredChallenge;
use fortify::routes::passport::{validate_passport, ValidateAction, ValidateEvent};
use fortify::types::CaptchaDifficulty;
use std::collections::HashMap;

fn challenge(answer: &str, difficulty: CaptchaDifficulty, expires_at: i64) -> StoredChallenge {
    StoredChallenge {
        answer: answer.to_string(),
        circuit_id: Some("c1".to_string()),
        difficulty,
        created_at: expires_at - 300,
        expires_at,
    }
}

#[test]
fn keys_in_the_store() {
    assert_eq!(CaptchaVerifier::challenge_key("abc"), "captcha:abc");
    assert_eq!(CaptchaVerifier::passport_key("tok"), "passport:tok");
}

#[test]
fn missing_challenge_is_expired_or_invalid() {
    let v = CaptchaVerifier::new(600).verify_at(None, "A1B2", Some("c1"), 1000, "tok".to_string());
    assert_eq!(v.assessment, Assessment::Missing);
    assert!(!v.result.success);
    assert_eq!(v.result.remaining_challenges, 0);
    assert!(v.result.passport_token.is_none());
    assert_eq!(v.result.error_message.as_deref(), Some("Challenge expired or invalid"));
    assert!(v.grant.is_none());
    assert!(!v.circuit_mismatch);
    let v = CaptchaVerifier::new(600).verify(None, "A1B2", None);
    assert_eq!(v.result.error_message.as_deref(), Some("Challenge expired or invalid"));
}

#[test]
fn expired_challenge_fails_with_right_answer() {
    let stored = challenge("A1B2", CaptchaDifficulty::Easy, 1000);
    let v = CaptchaVerifier::new(600).verify_at(Some(stored.clone()), "A1B2", Some("c1"), 1001, "tok".to_string());
    assert_eq!(v.assessment, Assessment::Expired);
    assert!(!v.result.success);
    assert_eq!(v.result.remaining_challenges, 0);
    assert_eq!(v.result.error_message.as_deref(), Some("Challenge expired"));
    assert!(v.grant.is_none());
    // At the moment of expiry the challenge can still be answered.
    let v = CaptchaVerifier::new(600).verify_at(Some(stored), "A1B2", Some("c1"), 1000, "tok".to_string());
    assert!(v.result.success);
}

#[test]
fn wrong_answer_may_try_again() {
    let stored = challenge("A1B2", CaptchaDifficulty::Easy, 1000);
    let v = CaptchaVerifier::new(600).verify_at(Some(stored), "A1B3", Some("c1"), 900, "tok".to_string());
    assert_eq!(v.assessment, Assessment::Incorrect);
    assert!(!v.result.success);
    assert_eq!(v.result.remaining_challenges, 1);
    assert!(v.result.passport_token.is_none());
    assert_eq!(v.result.error_message.as_deref(), Some("Incorrect answer"));
    assert!(v.grant.is_none());
}

#[test]
fn right_answer_earns_a_passport() {
    let stored = challenge("A1B2", CaptchaDifficulty::Medium, 1000);
    let v = CaptchaVerifier::new(600).verify_at(Some(stored), "a1b2", Some("c1"), 900, "tok".to_string());
    assert_eq!(v.assessment, Assessment::Correct);
    assert!(v.result.success);
    assert_eq!(v.result.remaining_challenges, 0);
    assert_eq!(v.result.passport_token.as_deref(), Some("tok"));
    assert!(v.result.error_message.is_none());
    let grant = v.grant.unwrap();
    assert_eq!(grant.key, "passport:tok");
    assert_eq!(grant.ttl_secs, 600);
    assert_eq!(grant.record.circuit_id.as_deref(), Some("c1"));
    assert_eq!(grant.record.issued_at, 900);
    assert_eq!(grant.record.expires_at, 1500);
}

#[test]
fn case_matters_for_hard_challenges_only() {
    assert!(answers_match(CaptchaDifficulty::Easy, "ab1", "AB1"));
    assert!(answers_match(CaptchaDifficulty::Medium, "aB1", "Ab1"));
    assert!(!answers_match(CaptchaDifficulty::Hard, "ab1", "AB1"));
    assert!(!answers_match(CaptchaDifficulty::Extreme, "ab1", "AB1"));
    assert!(answers_match(CaptchaDifficulty::Hard, "AB1", "AB1"));
    assert!(answers_match(CaptchaDifficulty::Extreme, "AB1", "AB1"));
    assert!(!answers_match(CaptchaDifficulty::Easy, "ab2", "AB1"));
    assert!(!answers_match(CaptchaDifficulty::Easy, "ab", "AB1"));
}

#[test]
fn circuit_mismatch_is_reported_and_does_not_fail() {
    let stored = challenge("A1B2", CaptchaDifficulty::Easy, 1000);
    let v = CaptchaVerifier::new(600).verify_at(Some(stored.clone()), "A1B2", Some("c2"), 900, "tok".to_string());
    assert!(v.circuit_mismatch);
    assert!(v.result.success);
    let v = CaptchaVerifier::new(600).verify_at(Some(stored.clone()), "A1B2", Some("c1"), 900, "tok".to_string());
    assert!(!v.circuit_mismatch);
    let v = CaptchaVerifier::new(600).verify_at(Some(stored), "A1B2", None, 900, "tok".to_string());
    assert!(!v.circuit_mismatch);
    assert!(v.grant.unwrap().record.circuit_id.is_none());
}

#[test]
fn verify_issues_a_fresh_token() {
    let stored = challenge("A1B2", CaptchaDifficulty::Easy, i64::MAX);
    let verifier = CaptchaVerifier::new(600);
    let v = verifier.verify(Some(stored.clone()), "a1b2", None);
    assert!(v.result.success);
    let token = v.result.passport_token.unwrap();
    assert_eq!(token.len(), 43);
    assert!(token.chars().all(|c| c.is_ascii_alphanumeric() || c == '-' || c == '_'));
    let grant = v.grant.unwrap();
    assert_eq!(grant.key, format!("passport:{}", token));
    assert_eq!(grant.record.expires_at, grant.record.issued_at + 600);
    let again = verifier.verify(Some(stored), "a1b2", None);
    assert_ne!(again.result.passport_token.unwrap(), token);
    let wrong = verifier.verify(Some(challenge("A1B2", CaptchaDifficulty::Easy, 0)), "a1b2", None);
    assert_eq!(wrong.assessment, Assessment::Expired);
}

#[test]
fn passport_is_valid_while_the_store_holds_it() {
    let verifier = CaptchaVerifier::new(600);
    assert_eq!(verifier.validate_passport(true, 120), (true, Some(120)));
    assert_eq!(verifier.validate_passport(true, 0), (true, None));
    assert_eq!(verifier.validate_passport(true, -1), (true, None));
    assert_eq!(verifier.validate_passport(false, 120), (false, None));
    assert_eq!(verifier.validate_passport(false, -2), (false, None));
}

#[test]
fn generated_challenge_hides_the_answer() {
    let generator = CaptchaGenerator::new(300);
    let issued = generator.generate_at(
        "id1".to_string(),
        "A1B2C".to_string(),
        "image".to_string(),
        Some("c1".to_string()),
        CaptchaDifficulty::Medium,
        1000,
    );
    assert_eq!(issued.key, "captcha:id1");
    assert_eq!(issued.ttl_secs, 300);
    assert_eq!(issued.challenge.challenge_id, "id1");
    assert_eq!(issued.challenge.image_data, "image");
    assert_eq!(issued.challenge.grid_size, (3, 3));
    assert_eq!(issued.challenge.instructions, "Type the characters shown above (case insensitive)");
    assert!(issued.challenge.expected_positions.is_empty());
    assert_eq!(issued.challenge.expires_at, 1300);
    assert_eq!(issued.stored.answer, "A1B2C");
    assert_eq!(issued.stored.circuit_id.as_deref(), Some("c1"));
    assert_eq!(issued.stored.difficulty, CaptchaDifficulty::Medium);
    assert_eq!(issued.stored.created_at, 1000);
    assert_eq!(issued.stored.expires_at, 1300);
}

#[test]
fn instructions_by_difficulty() {
    let g = CaptchaGenerator::new(300);
    assert_eq!(g.get_instructions(CaptchaDifficulty::Easy), "Type the characters shown above");
    assert_eq!(g.get_instructions(CaptchaDifficulty::Medium), "Type the characters shown above (case insensitive)");
    assert_eq!(g.get_instructions(CaptchaDifficulty::Hard), "Type the characters exactly as shown");
    assert_eq!(g.get_instructions(CaptchaDifficulty::Extreme), "Type the characters within 20 seconds");
}

#[test]
fn challenge_ids_are_128_random_bits() {
    let g = CaptchaGenerator::new(300);
    let id = g.generate_challenge_id();
    assert_eq!(id.len(), 22);
    assert!(id.chars().all(|c| c.is_ascii_alphanumeric() || c == '-' || c == '_'));
    assert_ne!(g.generate_challenge_id(), id);
}

#[test]
fn placeholder_captcha_has_answer_and_image() {
    let g = CaptchaGenerator::new(300);
    let (answer, image) = g.create_placeholder_captcha(CaptchaDifficulty::Extreme);
    assert_eq!(answer.len(), 8);
    assert!(image.starts_with("data:image/svg+xml;base64,"));
    let svg = g.create_svg_captcha("XY", CaptchaDifficulty::Hard);
    assert_eq!(svg.matches("<line ").count(), 30);
    assert_eq!(svg.matches("<text ").count(), 2);
}

#[test]
fn generate_prefers_the_pool() {
    let config = AmmoBoxConfig { ram_capacity: 4, ..Default::default() };
    let mut pool = AmmoBox::new(config, 0);
    let pooled = PregenCaptcha {
        answer: "POOL1".to_string(),
        image_data: "pooled image".to_string(),
        difficulty: CaptchaDifficulty::Medium,
        generated_at: 1,
    };
    assert!(pool.push(pooled).is_ok());
    let g = CaptchaGenerator::new(300);
    let issued = g.generate(&mut pool, Some("c1".to_string()), CaptchaDifficulty::Hard);
    assert_eq!(issued.stored.answer, "POOL1");
    assert_eq!(issued.challenge.image_data, "pooled image");
    assert_eq!(issued.stored.difficulty, CaptchaDifficulty::Hard);
    assert_eq!(issued.challenge.grid_size, (4, 4));
    assert_eq!(issued.key, format!("captcha:{}", issued.challenge.challenge_id));
    assert_eq!(issued.challenge.expires_at, issued.stored.created_at + 300);
    assert_eq!(pool.get_stats().served, 1);
    let issued = g.generate(&mut pool, None, CaptchaDifficulty::Hard);
    assert_eq!(issued.stored.answer.len(), 6);
    assert!(issued.challenge.image_data.starts_with("data:image/svg+xml;base64,"));
    assert_eq!(pool.get_stats().pool_misses, 1);
}

/// A store of the kind the gateway expects, for the round trip: values
/// with the time at which they are gone.
struct Store {
    challenges: HashMap<String, (StoredChallenge, i64)>,
    passports: HashMap<String, i64>,
}

impl Store {
    fn take_challenge(&mut self, key: &str, now: i64) -> Option<StoredChallenge> {
        match self.challenges.remove(key) {
            Some((c, gone_at)) if now < gone_at => Some(c),
            _ => None,
        }
    }

    fn has_passport(&self, key: &str, now: i64) -> bool {
        self.passports.get(key).map_or(false, |gone_at| now < *gone_at)
    }
}

fn status_for(store: &Store, token: &str, now: i64) -> u16 {
    let key = CaptchaVerifier::passport_key(token);
    assert_eq!(validate_passport(ValidateEvent::Request { has_circuit: false }), ValidateAction::CheckPassport);
    match validate_passport(ValidateEvent::Passport { valid: Some(store.has_passport(&key, now)) }) {
        ValidateAction::Respond(status) => status,
        other => panic!("unexpected action {:?}", other),
    }
}

#[test]
fn round_trip_serves_exactly_once() {
    let generator = CaptchaGenerator::new(300);
    let verifier = CaptchaVerifier::new(600);
    let mut store = Store { challenges: HashMap::new(), passports: HashMap::new() };

    let issued = generator.generate_at(
        "id1".to_string(),
        "K7Q2".to_string(),
        "image".to_string(),
        None,
        CaptchaDifficulty::Easy,
        1000,
    );
    store.challenges.insert(issued.key.clone(), (issued.stored.clone(), 1000 + issued.ttl_secs as i64));

    let key = CaptchaVerifier::challenge_key(&issued.challenge.challenge_id);
    let fetched = store.take_challenge(&key, 1010);
    let v = verifier.verify_at(fetched, "k7q2", None, 1010, "tok".to_string());
    assert!(v.result.success);
    let grant = v.grant.unwrap();
    store.passports.insert(grant.key.clone(), 1010 + grant.ttl_secs as i64);
    let token = v.result.passport_token.unwrap();

    assert_eq!(status_for(&store, &token, 1010), 200);
    assert_eq!(status_for(&store, &token, 1609), 200);
    assert_eq!(status_for(&store, &token, 1610), 401);
    assert_eq!(status_for(&store, "other", 1010), 401);

    // The challenge is gone: a second answer, right as it is, fails.
    let fetched = store.take_challenge(&key, 1011);
    let again = verifier.verify_at(fetched, "k7q2", None, 1011, "tok2".to_string());
    assert!(!again.result.success);
    assert_eq!(again.result.error_message.as_deref(), Some("Challenge expired or invalid"));
}
