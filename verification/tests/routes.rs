use fortify::captcha::generator::CaptchaGenerator;
use fortify::circuits::tracker::CircuitTracker;
use fortify::routes::captcha::{
    admit_check, circuit_update_at, get_challenge, internal_error, verify_challenge, ChallengeAction, ChallengeEvent,
    CircuitUpdate,
};
use fortify::routes::health::{health_check, metrics, ready_check};
use fortify::routes::page::{challenge_page, welcome_page};
use fortify::types::CaptchaChallenge;
use fortify::routes::passport::{cross_node_status, validate_passport, ValidateAction, ValidateEvent};
use fortify::captcha::svg::{embed_image, refer_to_image};
use fortify::routes::{
    ban_circuit, get_circuit_info, get_threat_level, html_escape, protected_app, set_threat_level, token_preview,
    verify_form, AppOutcome, FormOutcome,
};
use fortify::types::{CaptchaDifficulty, CaptchaResult, ThreatLevel};

#[test]
fn html_escape_replaces_the_five() {
    assert_eq!(html_escape("a&b<c>d\"e'f"), "a&amp;b&lt;c&gt;d&quot;e&#39;f");
    assert_eq!(html_escape("&amp;"), "&amp;amp;");
    assert_eq!(html_escape(""), "");
    assert_eq!(html_escape("plain ünïcode"), "plain ünïcode");
    assert_eq!(html_escape("<script>alert('x')</script>"), "&lt;script&gt;alert(&#39;x&#39;)&lt;/script&gt;");
}

fn run(has_circuit: bool, admitted: Option<bool>, within: Option<bool>, valid: Option<bool>) -> u16 {
    let mut action = validate_passport(ValidateEvent::Request { has_circuit });
    loop {
        action = match action {
            ValidateAction::CheckCircuit => validate_passport(ValidateEvent::Admission { allowed: admitted }),
            ValidateAction::CountRequest => validate_passport(ValidateEvent::RateLimit { allowed: within }),
            ValidateAction::CheckPassport => validate_passport(ValidateEvent::Passport { valid }),
            ValidateAction::Respond(status) => return status,
        };
    }
}

#[test]
fn validate_answers_by_the_first_objection() {
    assert_eq!(run(true, Some(true), Some(true), Some(true)), 200);
    assert_eq!(run(true, Some(false), Some(true), Some(true)), 403);
    assert_eq!(run(true, Some(false), Some(false), Some(false)), 403);
    assert_eq!(run(true, Some(true), Some(false), Some(true)), 429);
    assert_eq!(run(true, Some(true), Some(false), Some(false)), 429);
    assert_eq!(run(true, Some(true), Some(true), Some(false)), 401);
    assert_eq!(run(true, None, Some(true), Some(true)), 503);
    assert_eq!(run(true, Some(true), None, Some(true)), 503);
    assert_eq!(run(true, Some(true), Some(true), None), 503);
}

#[test]
fn validate_without_circuit_goes_by_the_passport() {
    assert_eq!(run(false, Some(false), Some(false), Some(true)), 200);
    assert_eq!(run(false, None, None, Some(false)), 401);
    assert_eq!(run(false, None, None, None), 503);
}

fn result(success: bool, token: Option<&str>) -> CaptchaResult {
    CaptchaResult { success, remaining_challenges: 0, passport_token: token.map(|t| t.to_string()), error_message: None }
}

#[test]
fn form_redirects_with_the_encoded_passport() {
    match verify_form(&Some(result(true, Some("aZ09-_.~ +/=é")))) {
        FormOutcome::Redirect(to) => assert_eq!(to, "/app/?passport_token=aZ09-_.~%20%2B%2F%3D%C3%A9"),
        other => panic!("unexpected outcome {:?}", other),
    }
    assert_eq!(format!("{:?}", verify_form(&Some(result(true, None)))), "Page(\"Verification succeeded but no token generated\")");
    assert_eq!(format!("{:?}", verify_form(&Some(result(false, None)))), "Page(\"Incorrect code. Please try again.\")");
    assert_eq!(format!("{:?}", verify_form(&Some(result(false, Some("t"))))), "Page(\"Incorrect code. Please try again.\")");
    assert_eq!(format!("{:?}", verify_form(&None)), "Page(\"Verification error. Please try again.\")");
}

#[test]
fn threat_level_zero_asks_for_no_challenge() {
    let r = get_threat_level(ThreatLevel::new(0));
    assert_eq!((r.level, r.requires_captcha, r.captcha_count), (0, false, 0));
    let r = get_threat_level(ThreatLevel::new(5));
    assert_eq!((r.level, r.requires_captcha, r.captcha_count), (5, true, 2));
}

#[test]
fn set_threat_level_clamps() {
    let (level, r) = set_threat_level(200);
    assert_eq!(level.value(), 10);
    assert_eq!((r.level, r.requires_captcha, r.captcha_count), (10, true, 5));
    let (level, r) = set_threat_level(7);
    assert_eq!(level.value(), 7);
    assert_eq!(r.captcha_count, 3);
}

#[test]
fn circuit_endpoints() {
    assert_eq!(get_circuit_info(Some(true)), 200);
    assert_eq!(get_circuit_info(Some(false)), 404);
    assert_eq!(get_circuit_info(None), 500);
    assert_eq!(ban_circuit(true), 200);
    assert_eq!(ban_circuit(false), 500);
}

#[test]
fn protected_app_needs_a_valid_passport() {
    assert_eq!(protected_app(Some(Some(true))), AppOutcome::Welcome);
    assert_eq!(protected_app(Some(Some(false))), AppOutcome::Challenge);
    assert_eq!(protected_app(Some(None)), AppOutcome::Error);
    assert_eq!(protected_app(None), AppOutcome::Challenge);
}

#[test]
fn token_preview_is_twenty_characters() {
    assert_eq!(token_preview("0123456789abcdefghijKLMN"), "0123456789abcdefghij");
    assert_eq!(token_preview("short"), "short");
    assert_eq!(token_preview(""), "");
}

#[test]
fn admit_check_forbids_with_the_reason() {
    assert!(admit_check(true, None).is_none());
    assert!(admit_check(true, Some("ignored".to_string())).is_none());
    let r = admit_check(false, Some("Too many failed attempts. Try again later.".to_string())).unwrap();
    assert_eq!((r.status, r.message.as_str()), (403, "Too many failed attempts. Try again later."));
    let r = admit_check(false, None).unwrap();
    assert_eq!((r.status, r.message.as_str()), (403, "Access denied"));
    let r = internal_error("boom".to_string());
    assert_eq!((r.status, r.message.as_str()), (500, "boom"));
}

fn issued_challenge() -> CaptchaChallenge {
    CaptchaGenerator::new(300)
        .generate_at("id".to_string(), "ANSWER".to_string(), "img".to_string(), None, CaptchaDifficulty::Hard, 10)
        .challenge
}

#[test]
fn challenge_response_tells_the_timeout() {
    match get_challenge(ChallengeEvent::Issued { challenge: issued_challenge(), difficulty: CaptchaDifficulty::Hard }) {
        ChallengeAction::Answer(response) => {
            assert_eq!(response.challenge_id, "id");
            assert_eq!(response.image_data, "img");
            assert_eq!(response.grid_size, (4, 4));
            assert_eq!(response.instructions, "Type the characters exactly as shown");
            assert_eq!(response.expires_in_secs, 30);
        }
        other => panic!("unexpected action {:?}", other),
    }
}

#[test]
fn challenge_endpoint_checks_the_circuit_first() {
    assert!(matches!(get_challenge(ChallengeEvent::Request { has_circuit: true }), ChallengeAction::CheckCircuit));
    assert!(matches!(get_challenge(ChallengeEvent::Request { has_circuit: false }), ChallengeAction::Issue));
    assert!(matches!(
        get_challenge(ChallengeEvent::Admission { allowed: true, reason: None }),
        ChallengeAction::Issue
    ));
    match get_challenge(ChallengeEvent::Failed { message: "store down".to_string() }) {
        ChallengeAction::Refuse(r) => assert_eq!((r.status, r.message.as_str()), (500, "store down")),
        other => panic!("unexpected action {:?}", other),
    }
}

#[test]
fn soft_locked_circuit_gets_403_and_no_challenge() {
    let tracker = CircuitTracker::new(1800, 5, 1800, 3600);
    let mut record = None;
    for attempt in 1..=5i64 {
        record = Some(tracker.record_failure_at(record, "C1", attempt));
    }
    assert!(matches!(get_challenge(ChallengeEvent::Request { has_circuit: true }), ChallengeAction::CheckCircuit));
    let (allowed, reason) = tracker.is_allowed(&record);
    match get_challenge(ChallengeEvent::Admission { allowed, reason }) {
        ChallengeAction::Refuse(r) => {
            assert_eq!(r.status, 403);
            assert!(r.message.starts_with("Too many failed attempts"));
        }
        other => panic!("unexpected action {:?}", other),
    }
    let banned = Some(tracker.ban_at(None, "C2", 1));
    let (allowed, reason) = tracker.is_allowed(&banned);
    match get_challenge(ChallengeEvent::Admission { allowed, reason }) {
        ChallengeAction::Refuse(r) => assert_eq!((r.status, r.message.as_str()), (403, "Circuit is banned")),
        other => panic!("unexpected action {:?}", other),
    }
    match get_challenge(ChallengeEvent::Admission { allowed: false, reason: None }) {
        ChallengeAction::Refuse(r) => assert_eq!((r.status, r.message.as_str()), (403, "Access denied")),
        other => panic!("unexpected action {:?}", other),
    }
}

#[test]
fn verification_updates_the_circuit() {
    match circuit_update_at(&result(true, Some("tok")), true, 1000, 600) {
        CircuitUpdate::Success { passport_token, passport_expires } => {
            assert_eq!(passport_token, "tok");
            assert_eq!(passport_expires, 1600);
        }
        other => panic!("unexpected update {:?}", other),
    }
    assert!(matches!(circuit_update_at(&result(false, None), true, 1000, 600), CircuitUpdate::Failure));
    assert!(matches!(circuit_update_at(&result(true, None), true, 1000, 600), CircuitUpdate::Unchanged));
    assert!(matches!(circuit_update_at(&result(true, Some("tok")), false, 1000, 600), CircuitUpdate::Unchanged));
    assert!(matches!(circuit_update_at(&result(false, None), false, 1000, 600), CircuitUpdate::Unchanged));
    assert!(matches!(verify_challenge(&result(false, None), true, 600), CircuitUpdate::Failure));
    assert!(matches!(verify_challenge(&result(true, Some("t")), true, 600), CircuitUpdate::Success { .. }));
}

#[test]
fn health_endpoints() {
    let h = health_check();
    assert_eq!((h.status, h.version), ("ok", "0.1.0"));
    let r = ready_check(true).unwrap();
    assert_eq!((r.status, r.redis), ("ready", true));
    assert_eq!(ready_check(false).err(), Some(503));
    let m = metrics("node-1", ThreatLevel::new(9));
    assert_eq!((m.node_id.as_str(), m.threat_level), ("node-1", 9));
}

#[test]
fn cross_node_passport_failures_are_401() {
    assert_eq!(cross_node_status(true), 200);
    assert_eq!(cross_node_status(false), 401);
}

#[test]
fn images_are_embedded_where_they_can_be_read() {
    assert_eq!(embed_image("data:image/svg+xml;base64,PHN2Zy8+Pz8="), "<svg/>??");
    assert_eq!(embed_image("data:image/svg+xml;base64,//4="), "\u{fffd}\u{fffd}");
    assert_eq!(
        embed_image("data:image/svg+xml;base64,***"),
        "<img src=\"data:image/svg+xml;base64,***\" alt=\"CAPTCHA\">"
    );
    assert_eq!(embed_image("http://x/y.png"), "<img src=\"http://x/y.png\" alt=\"CAPTCHA\">");
    assert_eq!(embed_image("data:image/svg+xml;base64,"), "");
    assert_eq!(refer_to_image("a"), "<img src=\"a\" alt=\"CAPTCHA\">");
    let url = fortify::captcha::svg::data_url("<svg>ü</svg>");
    assert_eq!(embed_image(&url), "<svg>ü</svg>");
}

fn shown_challenge() -> CaptchaChallenge {
    CaptchaChallenge {
        challenge_id: "id\"1".to_string(),
        image_data: "data:image/svg+xml;base64,PHN2Zy8+Pz8=".to_string(),
        grid_size: (2, 2),
        instructions: "Type <this>".to_string(),
        expected_positions: vec![],
        expires_at: 0,
    }
}

#[test]
fn challenge_page_embeds_the_challenge() {
    let page = challenge_page(&shown_challenge(), None);
    assert!(page.starts_with("<!DOCTYPE html>\n<html lang=\"en\">"));
    assert!(page.ends_with("</body>\n</html>"));
    assert!(page.contains("<title>Sigil - Verification Required</title>"));
    assert!(page.contains("<input type=\"hidden\" name=\"challenge_id\" value=\"id&quot;1\">"));
    assert!(page.contains("<div class=\"captcha-image\">\n                    <svg/>??\n"));
    assert!(page.contains("<p class=\"instructions\">Type &lt;this&gt;</p>"));
    assert!(page.contains("<form method=\"POST\" action=\"/verify\">"));
    assert!(!page.contains("style=\"display:block\""));
    assert!(!page.contains("<script"));
}

#[test]
fn challenge_page_shows_the_error_escaped() {
    let page = challenge_page(&shown_challenge(), Some("Incorrect <code>"));
    assert!(page.contains("<div class=\"error\" style=\"display:block\">Incorrect &lt;code&gt;</div>"));
    let plain = challenge_page(&shown_challenge(), None);
    assert_eq!(page.len(), plain.len() + "<div class=\"error\" style=\"display:block\">Incorrect &lt;code&gt;</div>".len());
}

#[test]
fn welcome_page_shows_the_beginning_of_the_passport() {
    let page = welcome_page("0123456789abcdefghijKLMNOP");
    assert!(page.contains("<strong>Passport Token:</strong><br>\n            0123456789abcdefghij...\n"));
    assert!(!page.contains("KLMNOP"));
    assert!(page.contains("<h1>Welcome to Sigil</h1>"));
}
