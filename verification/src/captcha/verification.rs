//! Verification of answers, and the local passports that a correct answer
//! earns.

use vstd::prelude::*;

use crate::captcha::{pending, PendingChallenge, StoredChallenge};
use crate::clock::{is_clock_reading, unix_now, MAX_TTL_SECS};
use crate::codec::{b64url_encoded, encode_b64url, is_b64url_char};
use crate::constants::redis_keys::{key_of, make_key, CAPTCHA_PREFIX, PASSPORT_PREFIX};
use crate::random::random_bytes;
use crate::text::{str_eq, to_upper, uppercased};
use crate::types::{opt_text, CaptchaDifficulty, CaptchaResult, Verdict};

verus! {

/// Number of random bytes in a local passport token.
pub const PASSPORT_TOKEN_BYTES: usize = 32;

/// Whether `answer` solves a challenge of the given difficulty whose
/// expected answer is `expected`: the easier challenges disregard case.
pub open spec fn answer_matches(
    difficulty: CaptchaDifficulty,
    answer: Seq<char>,
    expected: Seq<char>,
) -> bool {
    match difficulty {
        CaptchaDifficulty::Easy | CaptchaDifficulty::Medium => uppercased(answer) == uppercased(
            expected,
        ),
        CaptchaDifficulty::Hard | CaptchaDifficulty::Extreme => answer == expected,
    }
}

/// Tests whether `answer` solves a challenge of the given difficulty
/// whose expected answer is `expected`.
pub fn answers_match(difficulty: CaptchaDifficulty, answer: &str, expected: &str) -> (r: bool)
    ensures
        r == answer_matches(difficulty, answer@, expected@),
{
    match difficulty {
        CaptchaDifficulty::Easy | CaptchaDifficulty::Medium => {
            let a = to_upper(answer);
            let e = to_upper(expected);
            str_eq(a.as_str(), e.as_str())
        },
        CaptchaDifficulty::Hard | CaptchaDifficulty::Extreme => str_eq(answer, expected),
    }
}

/// How an answer fares against what the store held for its challenge.
#[derive(Debug, Clone, Copy, PartialEq, Eq, Structural)]
pub enum Assessment {
    /// The store held no such challenge: it expired, was used, or never
    /// existed.
    Missing,
    /// The challenge had expired.
    Expired,
    /// The answer is wrong.
    Incorrect,
    /// The answer is right.
    Correct,
}

/// Assesses `answer` against the challenge that was fetched, at `now`.
pub open spec fn assess_answer(
    stored: Option<PendingChallenge>,
    answer: Seq<char>,
    now: int,
) -> Assessment {
    match stored {
        None => Assessment::Missing,
        Some(c) => if now > c.expires_at {
            Assessment::Expired
        } else if answer_matches(c.difficulty, answer, c.answer) {
            Assessment::Correct
        } else {
            Assessment::Incorrect
        },
    }
}

/// The outcome that is reported for an assessment; `token` is the
/// passport issued where the answer was right.
pub open spec fn verdict_of(assessment: Assessment, token: Seq<char>) -> Verdict {
    match assessment {
        Assessment::Missing => Verdict {
            success: false,
            remaining_challenges: 0,
            passport_token: None,
            error_message: Some("Challenge expired or invalid"@),
        },
        Assessment::Expired => Verdict {
            success: false,
            remaining_challenges: 0,
            passport_token: None,
            error_message: Some("Challenge expired"@),
        },
        Assessment::Incorrect => Verdict {
            success: false,
            remaining_challenges: 1,
            passport_token: None,
            error_message: Some("Incorrect answer"@),
        },
        Assessment::Correct => Verdict {
            success: true,
            remaining_challenges: 0,
            passport_token: Some(token),
            error_message: None,
        },
    }
}

/// Whether the circuit that answers differs from the circuit that asked.
/// A difference is reported and does not fail the verification, since
/// circuits may rotate.
pub open spec fn circuits_differ(
    stored: Option<PendingChallenge>,
    circuit_id: Option<Seq<char>>,
) -> bool {
    stored is Some && stored->0.circuit_id is Some && circuit_id is Some && stored->0.circuit_id->0
        != circuit_id->0
}

/// A local passport, as it is kept in the shared store under its token.
#[derive(Debug)]
pub struct PassportRecord {
    /// The circuit that earned the passport.
    pub circuit_id: Option<String>,
    /// Unix time at which the passport was issued.
    pub issued_at: i64,
    /// Unix time at which the passport expires.
    pub expires_at: i64,
}

/// A local passport as a mathematical value.
pub ghost struct Passport {
    pub circuit_id: Option<Seq<char>>,
    pub issued_at: int,
    pub expires_at: int,
}

impl View for PassportRecord {
    type V = Passport;

    open spec fn view(&self) -> Passport {
        Passport {
            circuit_id: opt_text(self.circuit_id),
            issued_at: self.issued_at as int,
            expires_at: self.expires_at as int,
        }
    }
}

/// A passport to be written to the shared store.
#[derive(Debug)]
pub struct PassportGrant {
    /// The store key: the passport prefix and the token.
    pub key: String,
    /// The record to keep under the key.
    pub record: PassportRecord,
    /// How long the store is to keep it, in seconds.
    pub ttl_secs: u64,
}

/// What a verification decided.
#[derive(Debug)]
pub struct Verification {
    /// How the answer fared.
    pub assessment: Assessment,
    /// The outcome to report to the client.
    pub result: CaptchaResult,
    /// The passport to write to the store, where the answer was right.
    pub grant: Option<PassportGrant>,
    /// Whether the answering circuit differs from the asking one.
    pub circuit_mismatch: bool,
}

/// The passport that is granted at `now` to `circuit_id`.
pub open spec fn granted(circuit_id: Option<Seq<char>>, now: int, ttl: u64) -> Passport {
    Passport { circuit_id, issued_at: now, expires_at: now + ttl }
}

impl Verification {
    /// The passport token that was issued, or the empty text.
    pub open spec fn issued_token(&self) -> Seq<char> {
        match self.result.passport_token {
            Some(t) => t@,
            None => Seq::empty(),
        }
    }

    /// Whether this is what verification decides for `assessment`, with
    /// `token` as the passport on success.
    pub open spec fn decides(
        &self,
        assessment: Assessment,
        token: Seq<char>,
        circuit_id: Option<Seq<char>>,
        now: int,
        ttl: u64,
    ) -> bool {
        &&& self.assessment == assessment
        &&& self.result@ == verdict_of(assessment, token)
        &&& (assessment == Assessment::Correct) == (self.grant is Some)
        &&& self.grant matches Some(g) ==> {
            &&& g.key@ == key_of(PASSPORT_PREFIX@, token)
            &&& g.record@ == granted(circuit_id, now, ttl)
            &&& g.ttl_secs == ttl
        }
    }
}

/// Verifies answers and issues local passports.
pub struct CaptchaVerifier {
    /// How long a passport is valid, in seconds.
    pub passport_ttl: u64,
}

/// The text of an optional text reference.
pub open spec fn opt_str(o: Option<&str>) -> Option<Seq<char>> {
    match o {
        Some(s) => Some(s@),
        None => None,
    }
}

/// An owned copy of an optional text reference.
pub fn own_opt(o: Option<&str>) -> (r: Option<String>)
    ensures
        opt_text(r) == opt_str(o),
{
    match o {
        Some(s) => Some(String::from_str(s)),
        None => None,
    }
}

impl CaptchaVerifier {
    /// Creates a verifier whose passports are valid for `passport_ttl`
    /// seconds.
    pub fn new(passport_ttl: u64) -> (r: Self)
        ensures
            r.passport_ttl == passport_ttl,
    {
        CaptchaVerifier { passport_ttl }
    }

    /// The store key of the pending challenge `challenge_id`. The challenge
    /// is fetched and deleted in one step: it can be answered once.
    pub fn challenge_key(challenge_id: &str) -> (key: String)
        ensures
            key@ == key_of(CAPTCHA_PREFIX@, challenge_id@),
    {
        make_key(CAPTCHA_PREFIX, challenge_id)
    }

    /// The store key of the local passport `token`.
    pub fn passport_key(token: &str) -> (key: String)
        ensures
            key@ == key_of(PASSPORT_PREFIX@, token@),
    {
        make_key(PASSPORT_PREFIX, token)
    }

    /// Assesses `user_answer` against the challenge that was fetched from
    /// the store, at the time `now`.
    pub fn assess(stored: &Option<StoredChallenge>, user_answer: &str, now: i64) -> (a: Assessment)
        ensures
            a == assess_answer(pending(*stored), user_answer@, now as int),
    {
        match stored {
            None => Assessment::Missing,
            Some(challenge) => {
                if now > challenge.expires_at {
                    Assessment::Expired
                } else if answers_match(
                    challenge.difficulty,
                    user_answer,
                    challenge.answer.as_str(),
                ) {
                    Assessment::Correct
                } else {
                    Assessment::Incorrect
                }
            },
        }
    }

    /// Whether the circuit that answers differs from the one that asked.
    pub fn circuit_mismatch(stored: &Option<StoredChallenge>, circuit_id: Option<&str>) -> (r: bool)
        ensures
            r == circuits_differ(pending(*stored), opt_str(circuit_id)),
    {
        match stored {
            Some(challenge) => match (&challenge.circuit_id, circuit_id) {
                (Some(asked), Some(answering)) => !str_eq(asked.as_str(), answering),
                _ => false,
            },
            None => false,
        }
    }

    /// The outcome of a failed verification.
    pub fn reject(assessment: Assessment) -> (r: CaptchaResult)
        requires
            assessment != Assessment::Correct,
        ensures
            r@ == verdict_of(assessment, Seq::empty()),
    {
        match assessment {
            Assessment::Missing => CaptchaResult {
                success: false,
                remaining_challenges: 0,
                passport_token: None,
                error_message: Some(String::from_str("Challenge expired or invalid")),
            },
            Assessment::Expired => CaptchaResult {
                success: false,
                remaining_challenges: 0,
                passport_token: None,
                error_message: Some(String::from_str("Challenge expired")),
            },
            _ => CaptchaResult {
                success: false,
                remaining_challenges: 1,
                passport_token: None,
                error_message: Some(String::from_str("Incorrect answer")),
            },
        }
    }

    /// Concludes a verification whose assessment is known: reports the
    /// outcome and, where the answer was right, grants `token` as the
    /// passport of `circuit_id` from `now` on.
    pub fn conclude(
        &self,
        assessment: Assessment,
        circuit_id: Option<&str>,
        now: i64,
        token: String,
    ) -> (v: Verification)
        requires
            self.passport_ttl <= MAX_TTL_SECS,
            is_clock_reading(now),
        ensures
            v.decides(assessment, token@, opt_str(circuit_id), now as int, self.passport_ttl),
    {
        match assessment {
            Assessment::Correct => {
                let key = make_key(PASSPORT_PREFIX, token.as_str());
                let record = PassportRecord {
                    circuit_id: own_opt(circuit_id),
                    issued_at: now,
                    expires_at: now + self.passport_ttl as i64,
                };
                Verification {
                    assessment,
                    result: CaptchaResult {
                        success: true,
                        remaining_challenges: 0,
                        passport_token: Some(token),
                        error_message: None,
                    },
                    grant: Some(PassportGrant { key, record, ttl_secs: self.passport_ttl }),
                    circuit_mismatch: false,
                }
            },
            _ => Verification {
                assessment,
                result: CaptchaVerifier::reject(assessment),
                grant: None,
                circuit_mismatch: false,
            },
        }
    }

    /// Verifies `user_answer` at the time `now` against the challenge that
    /// was fetched from the store and deleted there, with `token` as the
    /// passport to issue if the answer is right.
    pub fn verify_at(
        &self,
        stored: Option<StoredChallenge>,
        user_answer: &str,
        circuit_id: Option<&str>,
        now: i64,
        token: String,
    ) -> (v: Verification)
        requires
            self.passport_ttl <= MAX_TTL_SECS,
            is_clock_reading(now),
        ensures
            v.decides(
                assess_answer(pending(stored), user_answer@, now as int),
                token@,
                opt_str(circuit_id),
                now as int,
                self.passport_ttl,
            ),
            v.circuit_mismatch == circuits_differ(pending(stored), opt_str(circuit_id)),
    {
        let assessment = CaptchaVerifier::assess(&stored, user_answer, now);
        let mismatch = CaptchaVerifier::circuit_mismatch(&stored, circuit_id);
        let mut v = self.conclude(assessment, circuit_id, now, token);
        v.circuit_mismatch = mismatch;
        v
    }

    /// Verifies `user_answer` against the challenge that was fetched from
    /// the store and deleted there. A right answer earns a fresh passport.
    pub fn verify(
        &self,
        stored: Option<StoredChallenge>,
        user_answer: &str,
        circuit_id: Option<&str>,
    ) -> (v: Verification)
        requires
            self.passport_ttl <= MAX_TTL_SECS,
        ensures
            exists|now: i64|
                is_clock_reading(now) && #[trigger] v.decides(
                    assess_answer(pending(stored), user_answer@, now as int),
                    v.issued_token(),
                    opt_str(circuit_id),
                    now as int,
                    self.passport_ttl,
                ),
            v.result@.passport_token is Some ==> is_passport_token(v.issued_token()),
            stored is None ==> v.result@ == verdict_of(Assessment::Missing, Seq::empty()),
            v.circuit_mismatch == circuits_differ(pending(stored), opt_str(circuit_id)),
    {
        let now = unix_now();
        let assessment = CaptchaVerifier::assess(&stored, user_answer, now);
        let mismatch = CaptchaVerifier::circuit_mismatch(&stored, circuit_id);
        let token = match assessment {
            Assessment::Correct => self.generate_passport_token(),
            _ => String::new(),
        };
        let mut v = self.conclude(assessment, circuit_id, now, token);
        v.circuit_mismatch = mismatch;
        proof {
            assert(v.decides(
                assessment,
                v.issued_token(),
                opt_str(circuit_id),
                now as int,
                self.passport_ttl,
            ));
        }
        v
    }

    /// Generates a passport token: 32 random bytes in URL-safe base64.
    pub fn generate_passport_token(&self) -> (token: String)
        ensures
            is_passport_token(token@),
    {
        let bytes = random_bytes(PASSPORT_TOKEN_BYTES);
        encode_b64url(bytes.as_slice())
    }

    /// Decides on a passport from what the store says of its key: whether
    /// the key exists, and how many seconds it has left. The passport is
    /// valid exactly if the key exists; a key with time left is to be
    /// touched, its time to live set again to what is left.
    pub fn validate_passport(&self, exists: bool, ttl: i64) -> (r: (bool, Option<i64>))
        ensures
            r.0 == exists,
            r.1 == if exists && ttl > 0 { Some(ttl) } else { None::<i64> },
    {
        if exists && ttl > 0 {
            (true, Some(ttl))
        } else {
            (exists, None)
        }
    }
}

/// Number of characters in a local passport token.
pub const PASSPORT_TOKEN_LEN: usize = 43;

/// Whether `token` is the base64 of 32 bytes, which is 43 characters of
/// the URL-safe alphabet.
pub open spec fn is_passport_token(token: Seq<char>) -> bool {
    &&& token.len() == PASSPORT_TOKEN_LEN
    &&& forall|i: int| 0 <= i < token.len() ==> is_b64url_char(#[trigger] token[i])
    &&& exists|bytes: Seq<u8>|
        bytes.len() == PASSPORT_TOKEN_BYTES && token == #[trigger] b64url_encoded(bytes)
}

} // verus!
