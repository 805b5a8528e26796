//! What the HTTP endpoints decide. The endpoints themselves talk to the
//! client and to the shared store; here is what they answer, given what
//! they learnt.

use vstd::prelude::*;

use crate::codec::{percent_encoded, url_encode};
use crate::text::utf8;
use crate::types::{challenge_count, CaptchaResult, ThreatLevel};

pub mod captcha;
pub mod health;
pub mod page;
pub mod passport;

verus! {

/// The answer to a request that was served.
pub const STATUS_OK: u16 = 200;

/// The answer to a request without a valid passport.
pub const STATUS_UNAUTHORIZED: u16 = 401;

/// The answer to a request of a circuit that is banned or soft-locked.
pub const STATUS_FORBIDDEN: u16 = 403;

/// The answer to a request for what is not there.
pub const STATUS_NOT_FOUND: u16 = 404;

/// The answer to a request over the rate limit.
pub const STATUS_TOO_MANY_REQUESTS: u16 = 429;

/// The answer to a request that could not be served.
pub const STATUS_INTERNAL_SERVER_ERROR: u16 = 500;

/// The answer of a node that is not ready.
pub const STATUS_SERVICE_UNAVAILABLE: u16 = 503;

/// Where a client without a valid passport is sent.
pub const CHALLENGE_PAGE: &'static str = "/";

/// Where a client with a fresh passport is sent; the passport follows.
pub const APP_PREFIX: &'static str = "/app/?passport_token=";

/// What the page says after a wrong answer.
pub const INCORRECT_CODE: &'static str = "Incorrect code. Please try again.";

/// What the page says when verification could not be done.
pub const VERIFICATION_ERROR: &'static str = "Verification error. Please try again.";

/// What the page says when a right answer earned no passport.
pub const NO_TOKEN: &'static str = "Verification succeeded but no token generated";

/// How many characters of a passport the welcome page shows.
pub const TOKEN_PREVIEW_LEN: usize = 20;

/// The form that a client submits where it runs no scripts.
#[derive(Debug)]
pub struct VerifyForm {
    pub challenge_id: String,
    pub answer: String,
}

/// What stands for `c` in HTML text.
pub open spec fn escaped_char(c: char) -> Seq<char> {
    if c == '&' {
        "&amp;"@
    } else if c == '<' {
        "&lt;"@
    } else if c == '>' {
        "&gt;"@
    } else if c == '"' {
        "&quot;"@
    } else if c == '\'' {
        "&#39;"@
    } else {
        seq![c]
    }
}

/// The text `s` with every character that HTML gives a meaning replaced
/// by what stands for it.
pub open spec fn escaped(s: Seq<char>) -> Seq<char>
    decreases s.len(),
{
    if s.len() == 0 {
        Seq::empty()
    } else {
        escaped(s.drop_last()) + escaped_char(s.last())
    }
}

/// Whether `c` has a meaning in HTML text or in an attribute value.
pub open spec fn is_markup(c: char) -> bool {
    c == '<' || c == '>' || c == '"' || c == '\''
}

/// Escaped text holds no character that begins or ends markup or a
/// quoted value.
pub proof fn lemma_escaped_is_safe(s: Seq<char>)
    ensures
        forall|i: int| 0 <= i < escaped(s).len() ==> !is_markup(#[trigger] escaped(s)[i]),
    decreases s.len(),
{
    reveal_strlit("&amp;");
    reveal_strlit("&lt;");
    reveal_strlit("&gt;");
    reveal_strlit("&quot;");
    reveal_strlit("&#39;");
    if s.len() > 0 {
        lemma_escaped_is_safe(s.drop_last());
        let head = escaped(s.drop_last());
        let tail = escaped_char(s.last());
        assert forall|k: int| 0 <= k < tail.len() implies !is_markup(#[trigger] tail[k]) by {}
        assert forall|i: int| 0 <= i < escaped(s).len() implies !is_markup(
            #[trigger] escaped(s)[i],
        ) by {
            if i < head.len() {
                assert(escaped(s)[i] == head[i]);
            } else {
                assert(escaped(s)[i] == tail[i - head.len()]);
            }
        }
    }
}

/// Escapes `s` for use in HTML text.
pub fn html_escape(s: &str) -> (r: String)
    ensures
        r@ == escaped(s@),
{
    let mut r = String::new();
    for c in it: s.chars()
        invariant
            it.seq() == s@,
            r@ == escaped(s@.take(it.index() as int)),
    {
        let ghost k = it.index() as int;
        proof {
            assert(s@.take(k + 1).drop_last() =~= s@.take(k));
        }
        if c == '&' {
            r.append("&amp;");
        } else if c == '<' {
            r.append("&lt;");
        } else if c == '>' {
            r.append("&gt;");
        } else if c == '"' {
            r.append("&quot;");
        } else if c == '\'' {
            r.append("&#39;");
        } else {
            crate::text::push_char(&mut r, c);
            proof {
                assert(escaped(s@.take(k)).push(c) =~= escaped(s@.take(k)) + seq![c]);
            }
        }
    }
    proof {
        assert(s@.take(s@.len() as int) =~= s@);
    }
    r
}

/// What the form endpoint answers.
#[derive(Debug)]
pub enum FormOutcome {
    /// Send the client on to the given address.
    Redirect(String),
    /// Show the challenge page again, with the given words.
    Page(&'static str),
}

/// What the form endpoint answers, as a mathematical value.
pub ghost enum FormAnswer {
    Redirect(Seq<char>),
    Page(Seq<char>),
}

impl View for FormOutcome {
    type V = FormAnswer;

    open spec fn view(&self) -> FormAnswer {
        match self {
            FormOutcome::Redirect(to) => FormAnswer::Redirect(to@),
            FormOutcome::Page(words) => FormAnswer::Page(words@),
        }
    }
}

/// What the form endpoint answers to a verification: `None` stands for
/// one that could not be done.
pub open spec fn form_answer(result: Option<CaptchaResult>) -> FormAnswer {
    match result {
        None => FormAnswer::Page(VERIFICATION_ERROR@),
        Some(r) => if r.success {
            match r.passport_token {
                Some(token) => FormAnswer::Redirect(APP_PREFIX@ + percent_encoded(utf8(token@))),
                None => FormAnswer::Page(NO_TOKEN@),
            }
        } else {
            FormAnswer::Page(INCORRECT_CODE@)
        },
    }
}

/// Decides what the form endpoint answers to a verification.
pub fn verify_form(result: &Option<CaptchaResult>) -> (outcome: FormOutcome)
    ensures
        outcome@ == form_answer(*result),
{
    match result {
        None => FormOutcome::Page(VERIFICATION_ERROR),
        Some(r) => {
            if r.success {
                match &r.passport_token {
                    Some(token) => {
                        let encoded = url_encode(token.as_str());
                        let mut to = String::from_str(APP_PREFIX);
                        to.append(encoded.as_str());
                        FormOutcome::Redirect(to)
                    },
                    None => FormOutcome::Page(NO_TOKEN),
                }
            } else {
                FormOutcome::Page(INCORRECT_CODE)
            }
        },
    }
}

/// What the threat-level endpoint reports.
#[derive(Debug, Clone, Copy, PartialEq, Eq, Structural)]
pub struct ThreatLevelResponse {
    pub level: u8,
    pub requires_captcha: bool,
    pub captcha_count: u8,
}

/// Reports a threat level.
pub fn get_threat_level(level: ThreatLevel) -> (r: ThreatLevelResponse)
    ensures
        r.level == level@,
        r.requires_captcha == (level@ > 0),
        r.captcha_count == challenge_count(level@),
{
    ThreatLevelResponse {
        level: level.value(),
        requires_captcha: level.requires_captcha(),
        captcha_count: level.captcha_count(),
    }
}

/// Decides on a request to set the dial to `level`: the level that is
/// set, clamped to the range of the dial, and the report of it.
pub fn set_threat_level(level: u8) -> (r: (ThreatLevel, ThreatLevelResponse))
    ensures
        r.0@ == if level <= 10 { level as int } else { 10 },
        r.1.level == r.0@,
        r.1.requires_captcha == (r.0@ > 0),
        r.1.captcha_count == challenge_count(r.0@),
{
    let set = ThreatLevel::new(level);
    (set, get_threat_level(set))
}

/// What the statistics endpoint reports.
#[derive(Debug)]
pub struct StatsResponse {
    pub node_id: String,
    pub threat_level: u8,
    pub version: &'static str,
}

/// Reports the node's name, its threat level and its version.
pub fn get_stats(node_id: &str, level: ThreatLevel) -> (r: StatsResponse)
    ensures
        r.node_id@ == node_id@,
        r.threat_level == level@,
        r.version@ == crate::cluster::gossip::VERSION@,
{
    StatsResponse {
        node_id: String::from_str(node_id),
        threat_level: level.value(),
        version: crate::cluster::gossip::VERSION,
    }
}

/// What the endpoints that look a circuit up answer: `found` says
/// whether the store holds a record, `None` that it could not be asked.
pub fn get_circuit_info(found: Option<bool>) -> (status: u16)
    ensures
        status == match found {
            Some(true) => STATUS_OK,
            Some(false) => STATUS_NOT_FOUND,
            None => STATUS_INTERNAL_SERVER_ERROR,
        },
{
    match found {
        Some(true) => STATUS_OK,
        Some(false) => STATUS_NOT_FOUND,
        None => STATUS_INTERNAL_SERVER_ERROR,
    }
}

/// What the endpoint that bans a circuit answers: `saved` says whether
/// the banned record reached the store.
pub fn ban_circuit(saved: bool) -> (status: u16)
    ensures
        status == if saved { STATUS_OK } else { STATUS_INTERNAL_SERVER_ERROR },
{
    if saved {
        STATUS_OK
    } else {
        STATUS_INTERNAL_SERVER_ERROR
    }
}

/// What the protected application answers.
#[derive(Debug, Clone, Copy, PartialEq, Eq, Structural)]
pub enum AppOutcome {
    /// Show the protected content.
    Welcome,
    /// Send the client to the challenge page.
    Challenge,
    /// Answer with the status of an internal error.
    Error,
}

/// What the protected application answers: `validation` is `None` where
/// the request carried no passport, and holds otherwise what the store
/// said of it, `None` again where it could not be asked.
pub fn protected_app(validation: Option<Option<bool>>) -> (outcome: AppOutcome)
    ensures
        outcome == match validation {
            Some(Some(true)) => AppOutcome::Welcome,
            Some(Some(false)) => AppOutcome::Challenge,
            Some(None) => AppOutcome::Error,
            None => AppOutcome::Challenge,
        },
{
    match validation {
        Some(Some(true)) => AppOutcome::Welcome,
        Some(Some(false)) => AppOutcome::Challenge,
        Some(None) => AppOutcome::Error,
        None => AppOutcome::Challenge,
    }
}

/// The beginning of a passport that the welcome page shows: its first
/// twenty characters, or all of it where it is shorter.
pub open spec fn preview(token: Seq<char>) -> Seq<char> {
    if token.len() < TOKEN_PREVIEW_LEN {
        token
    } else {
        token.take(TOKEN_PREVIEW_LEN as int)
    }
}

/// The beginning of a passport that the welcome page shows.
pub fn token_preview(token: &str) -> (r: String)
    ensures
        r@ == preview(token@),
{
    let chars = crate::text::chars_of(token);
    let n = if chars.len() < TOKEN_PREVIEW_LEN {
        chars.len()
    } else {
        TOKEN_PREVIEW_LEN
    };
    let head = crate::text::slice_chars(chars.as_slice(), 0, n);
    proof {
        assert(head@ =~= preview(token@));
    }
    crate::text::string_of(head.as_slice())
}

} // verus!
