//! A model of the shared store, and what the gateway's rules mean on it.
//!
//! The store keeps pending challenges under their identifiers and local
//! passports under their tokens, each for a time to live; what has
//! outlived its time is gone. A challenge is fetched and deleted in one
//! step. The model is ghost: it says what the endpoints do to the store
//! with what the library decides, and the laws below hold of every run.

use vstd::prelude::*;

use crate::captcha::verification::{
    answer_matches, assess_answer, granted, verdict_of, Assessment, Passport,
};
use crate::captcha::PendingChallenge;
use crate::routes::passport::validation_status;
use crate::routes::STATUS_OK;
use crate::types::{CaptchaDifficulty, Verdict};

verus! {

/// A value in the store, and the time at which the store drops it.
pub ghost struct Kept<V> {
    pub value: V,
    pub gone_at: int,
}

/// The shared store: pending challenges by identifier, local passports
/// by token. The two live under different prefixes and never collide.
pub ghost struct Store {
    pub challenges: Map<Seq<char>, Kept<PendingChallenge>>,
    pub passports: Map<Seq<char>, Kept<Passport>>,
}

impl Store {
    /// The pending challenge that the store hands out for `id` at `now`.
    pub open spec fn challenge(self, id: Seq<char>, now: int) -> Option<PendingChallenge> {
        if self.challenges.dom().contains(id) && now < self.challenges[id].gone_at {
            Some(self.challenges[id].value)
        } else {
            None
        }
    }

    /// Whether the store holds the passport `token` at `now`.
    pub open spec fn has_passport(self, token: Seq<char>, now: int) -> bool {
        self.passports.dom().contains(token) && now < self.passports[token].gone_at
    }

    /// The store after a challenge was issued at `now`: the challenge is
    /// kept under `id` for `ttl` seconds.
    pub open spec fn issue(self, id: Seq<char>, challenge: PendingChallenge, now: int, ttl: u64) -> Store {
        Store {
            challenges: self.challenges.insert(id, Kept { value: challenge, gone_at: now + ttl }),
            ..self
        }
    }

    /// The store after the challenge `id` was fetched and deleted.
    pub open spec fn take_challenge(self, id: Seq<char>) -> Store {
        Store { challenges: self.challenges.remove(id), ..self }
    }

    /// The store after the passport `token` was granted at `now` for
    /// `ttl` seconds.
    pub open spec fn grant(
        self,
        token: Seq<char>,
        circuit_id: Option<Seq<char>>,
        now: int,
        ttl: u64,
    ) -> Store {
        Store {
            passports: self.passports.insert(
                token,
                Kept { value: granted(circuit_id, now, ttl), gone_at: now + ttl },
            ),
            ..self
        }
    }

    /// A verification at `now`: the challenge `id` is fetched and deleted,
    /// the answer is assessed, and a right answer is granted `token` as
    /// its passport. Gives the store afterwards and the outcome.
    pub open spec fn verify(
        self,
        id: Seq<char>,
        answer: Seq<char>,
        circuit_id: Option<Seq<char>>,
        now: int,
        token: Seq<char>,
        passport_ttl: u64,
    ) -> (Store, Verdict) {
        let assessment = assess_answer(self.challenge(id, now), answer, now);
        let taken = self.take_challenge(id);
        let after = if assessment == Assessment::Correct {
            taken.grant(token, circuit_id, now, passport_ttl)
        } else {
            taken
        };
        (after, verdict_of(assessment, token))
    }
}

/// The challenge with the given answer that is issued at `now` for `ttl`
/// seconds.
pub open spec fn challenge_of(
    answer: Seq<char>,
    circuit_id: Option<Seq<char>>,
    difficulty: CaptchaDifficulty,
    now: int,
    ttl: u64,
) -> PendingChallenge {
    PendingChallenge { answer, circuit_id, difficulty, created_at: now, expires_at: now + ttl }
}

/// A challenge is answered once: after one verification of a challenge,
/// whatever its outcome, every further verification of the same
/// challenge fails as expired or invalid.
pub proof fn lemma_challenge_single_use(
    store: Store,
    id: Seq<char>,
    first_answer: Seq<char>,
    first_time: int,
    first_token: Seq<char>,
    second_answer: Seq<char>,
    second_time: int,
    second_token: Seq<char>,
    circuit_id: Option<Seq<char>>,
    passport_ttl: u64,
)
    ensures
        ({
            let (after, _) = store.verify(
                id,
                first_answer,
                circuit_id,
                first_time,
                first_token,
                passport_ttl,
            );
            let (_, second) = after.verify(
                id,
                second_answer,
                circuit_id,
                second_time,
                second_token,
                passport_ttl,
            );
            &&& !second.success
            &&& second.passport_token is None
            &&& second.error_message == Some("Challenge expired or invalid"@)
        }),
{
}

/// A challenge cannot be answered after it has expired: a verification
/// later than the challenge's expiry fails, whatever the answer.
pub proof fn lemma_challenge_expiry(
    store: Store,
    id: Seq<char>,
    answer: Seq<char>,
    circuit_id: Option<Seq<char>>,
    now: int,
    token: Seq<char>,
    passport_ttl: u64,
)
    requires
        store.challenge(id, now) matches Some(c) ==> now > c.expires_at,
    ensures
        !store.verify(id, answer, circuit_id, now, token, passport_ttl).1.success,
        store.verify(id, answer, circuit_id, now, token, passport_ttl).1.passport_token is None,
        store.verify(id, answer, circuit_id, now, token, passport_ttl).0.passports
            == store.passports,
{
}

/// A passport lives as long as it was granted for: the store holds a
/// passport granted at `granted_at` exactly until `passport_ttl` seconds
/// have passed, unless it is removed before; and it holds no passport
/// that was never granted.
pub proof fn lemma_passport_lifetime(
    store: Store,
    token: Seq<char>,
    circuit_id: Option<Seq<char>>,
    granted_at: int,
    passport_ttl: u64,
    now: int,
)
    ensures
        store.grant(token, circuit_id, granted_at, passport_ttl).has_passport(token, now) <==> now
            < granted_at + passport_ttl,
        !store.passports.dom().contains(token) ==> !store.has_passport(token, now),
        !(Store { passports: store.passports.remove(token), ..store }).has_passport(token, now),
{
}

/// The round trip: a challenge that is issued and then answered rightly
/// in time earns a passport; the passport is valid, and a request that
/// shows it is served, while it lives; and the challenge cannot be
/// answered a second time.
pub proof fn lemma_round_trip(
    store: Store,
    id: Seq<char>,
    answer: Seq<char>,
    circuit_id: Option<Seq<char>>,
    difficulty: CaptchaDifficulty,
    issued_at: int,
    challenge_ttl: u64,
    answered_at: int,
    token: Seq<char>,
    passport_ttl: u64,
    shown_at: int,
    again_at: int,
    again_token: Seq<char>,
)
    requires
        issued_at <= answered_at < issued_at + challenge_ttl,
        answered_at <= shown_at < answered_at + passport_ttl,
    ensures
        ({
            let issued = store.issue(
                id,
                challenge_of(answer, circuit_id, difficulty, issued_at, challenge_ttl),
                issued_at,
                challenge_ttl,
            );
            let (after, verdict) = issued.verify(
                id,
                answer,
                circuit_id,
                answered_at,
                token,
                passport_ttl,
            );
            let (_, again) = after.verify(
                id,
                answer,
                circuit_id,
                again_at,
                again_token,
                passport_ttl,
            );
            &&& verdict.success
            &&& verdict.passport_token == Some(token)
            &&& after.has_passport(token, shown_at)
            &&& validation_status(false, None, None, Some(after.has_passport(token, shown_at)))
                == STATUS_OK
            &&& !again.success
        }),
{
    assert(answer_matches(difficulty, answer, answer));
}

} // verus!
