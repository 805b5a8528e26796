//! The challenge and verification endpoints.

use vstd::prelude::*;

use crate::circuits::tracker::{
    admission, after_failures, lemma_soft_lock_threshold, BANNED_REASON, SOFT_LOCKED_REASON,
};
use crate::clock::{is_clock_reading, unix_now, MAX_TTL_SECS};
use crate::routes::{STATUS_FORBIDDEN, STATUS_INTERNAL_SERVER_ERROR};
use crate::types::{
    opt_text, CaptchaChallenge, CaptchaDifficulty, CaptchaResult, CircuitRecord, CircuitStatus,
};

verus! {

/// Why a circuit is turned away where its record gives no reason.
pub const ACCESS_DENIED: &'static str = "Access denied";

/// What a request for a challenge carries.
#[derive(Debug)]
pub struct ChallengeQuery {
    /// The circuit that asks.
    pub circuit_id: Option<String>,
}

/// What a request for a challenge is answered with.
#[derive(Debug)]
pub struct ChallengeResponse {
    pub challenge_id: String,
    pub image_data: String,
    pub grid_size: (u8, u8),
    pub instructions: String,
    pub expires_in_secs: u32,
}

/// What a request for verification carries.
#[derive(Debug)]
pub struct VerifyRequest {
    pub challenge_id: String,
    /// The user's answer.
    pub answer: String,
    /// The circuit that answers.
    pub circuit_id: Option<String>,
}

/// The refusal of a request: a status and the words that go with it.
#[derive(Debug)]
pub struct Refusal {
    pub status: u16,
    pub message: String,
}

/// The refusal of a request as a mathematical value.
pub open spec fn refusal_view(r: Option<Refusal>) -> Option<(u16, Seq<char>)> {
    match r {
        Some(r) => Some((r.status, r.message@)),
        None => None,
    }
}

/// Whether a request is refused after the admit-check, and how: a
/// circuit that is not allowed is forbidden, with the reason of its
/// record.
pub open spec fn denial(allowed: bool, reason: Option<Seq<char>>) -> Option<(u16, Seq<char>)> {
    if allowed {
        None
    } else {
        Some(
            (
                STATUS_FORBIDDEN,
                match reason {
                    Some(words) => words,
                    None => ACCESS_DENIED@,
                },
            ),
        )
    }
}

/// Decides whether a request is refused after the admit-check.
pub fn admit_check(allowed: bool, reason: Option<String>) -> (r: Option<Refusal>)
    ensures
        refusal_view(r) == denial(allowed, opt_text(reason)),
{
    if allowed {
        None
    } else {
        let message = match reason {
            Some(words) => words,
            None => String::from_str(ACCESS_DENIED),
        };
        Some(Refusal { status: STATUS_FORBIDDEN, message })
    }
}

/// The refusal of a request whose work failed with the given words.
pub fn internal_error(message: String) -> (r: Refusal)
    ensures
        r.status == STATUS_INTERNAL_SERVER_ERROR,
        r.message == message,
{
    Refusal { status: STATUS_INTERNAL_SERVER_ERROR, message }
}

/// What the challenge endpoint learns, step by step.
#[derive(Debug)]
pub enum ChallengeEvent {
    /// A request arrived; `has_circuit` says whether it names a circuit.
    Request { has_circuit: bool },
    /// The admit-check said whether the circuit is allowed, and why not.
    Admission { allowed: bool, reason: Option<String> },
    /// A challenge was issued at the given difficulty and is kept in the
    /// store.
    Issued { challenge: CaptchaChallenge, difficulty: CaptchaDifficulty },
    /// The store could not be asked, or the challenge not be kept.
    Failed { message: String },
}

/// What the challenge endpoint does next.
#[derive(Debug)]
pub enum ChallengeAction {
    /// Look the circuit's record up and check whether it is allowed.
    CheckCircuit,
    /// Issue a challenge and keep it in the store.
    Issue,
    /// Refuse the request; no challenge is issued.
    Refuse(Refusal),
    /// Answer with the challenge.
    Answer(ChallengeResponse),
}

/// What the challenge endpoint learns, as a mathematical value.
pub ghost enum ChallengeStage {
    Request { has_circuit: bool },
    Admission { allowed: bool, reason: Option<Seq<char>> },
    Issued {
        challenge_id: Seq<char>,
        image_data: Seq<char>,
        grid_size: (u8, u8),
        instructions: Seq<char>,
        difficulty: CaptchaDifficulty,
    },
    Failed { message: Seq<char> },
}

/// What the challenge endpoint does next, as a mathematical value.
pub ghost enum ChallengeStep {
    CheckCircuit,
    Issue,
    Refuse { status: u16, message: Seq<char> },
    Answer {
        challenge_id: Seq<char>,
        image_data: Seq<char>,
        grid_size: (u8, u8),
        instructions: Seq<char>,
        expires_in_secs: u32,
    },
}

impl View for ChallengeEvent {
    type V = ChallengeStage;

    open spec fn view(&self) -> ChallengeStage {
        match self {
            ChallengeEvent::Request { has_circuit } => ChallengeStage::Request {
                has_circuit: *has_circuit,
            },
            ChallengeEvent::Admission { allowed, reason } => ChallengeStage::Admission {
                allowed: *allowed,
                reason: opt_text(*reason),
            },
            ChallengeEvent::Issued { challenge, difficulty } => ChallengeStage::Issued {
                challenge_id: challenge.challenge_id@,
                image_data: challenge.image_data@,
                grid_size: challenge.grid_size,
                instructions: challenge.instructions@,
                difficulty: *difficulty,
            },
            ChallengeEvent::Failed { message } => ChallengeStage::Failed { message: message@ },
        }
    }
}

impl View for ChallengeAction {
    type V = ChallengeStep;

    open spec fn view(&self) -> ChallengeStep {
        match self {
            ChallengeAction::CheckCircuit => ChallengeStep::CheckCircuit,
            ChallengeAction::Issue => ChallengeStep::Issue,
            ChallengeAction::Refuse(refusal) => ChallengeStep::Refuse {
                status: refusal.status,
                message: refusal.message@,
            },
            ChallengeAction::Answer(response) => ChallengeStep::Answer {
                challenge_id: response.challenge_id@,
                image_data: response.image_data@,
                grid_size: response.grid_size,
                instructions: response.instructions@,
                expires_in_secs: response.expires_in_secs,
            },
        }
    }
}

/// What the challenge endpoint does after it has learnt `stage`. A
/// request that names a circuit is put to the admit-check first; a
/// circuit that is not allowed is forbidden with the reason of its
/// record, and no challenge is issued for it; any other request has a
/// challenge issued and is answered with it, and with the time that the
/// difficulty gives to solve. A failure of the store is an internal
/// error.
pub open spec fn challenge_step(stage: ChallengeStage) -> ChallengeStep {
    match stage {
        ChallengeStage::Request { has_circuit } => if has_circuit {
            ChallengeStep::CheckCircuit
        } else {
            ChallengeStep::Issue
        },
        ChallengeStage::Admission { allowed, reason } => match denial(allowed, reason) {
            Some((status, message)) => ChallengeStep::Refuse { status, message },
            None => ChallengeStep::Issue,
        },
        ChallengeStage::Issued {
            challenge_id,
            image_data,
            grid_size,
            instructions,
            difficulty,
        } => ChallengeStep::Answer {
            challenge_id,
            image_data,
            grid_size,
            instructions,
            expires_in_secs: difficulty.spec_timeout_secs(),
        },
        ChallengeStage::Failed { message } => ChallengeStep::Refuse {
            status: STATUS_INTERNAL_SERVER_ERROR,
            message,
        },
    }
}

/// Decides what the challenge endpoint does after `event`.
pub fn get_challenge(event: ChallengeEvent) -> (action: ChallengeAction)
    ensures
        action@ == challenge_step(event@),
{
    match event {
        ChallengeEvent::Request { has_circuit } => {
            if has_circuit {
                ChallengeAction::CheckCircuit
            } else {
                ChallengeAction::Issue
            }
        },
        ChallengeEvent::Admission { allowed, reason } => match admit_check(allowed, reason) {
            Some(refusal) => ChallengeAction::Refuse(refusal),
            None => ChallengeAction::Issue,
        },
        ChallengeEvent::Issued { challenge, difficulty } => ChallengeAction::Answer(
            ChallengeResponse {
                challenge_id: challenge.challenge_id,
                image_data: challenge.image_data,
                grid_size: challenge.grid_size,
                instructions: challenge.instructions,
                expires_in_secs: difficulty.timeout_secs(),
            },
        ),
        ChallengeEvent::Failed { message } => ChallengeAction::Refuse(internal_error(message)),
    }
}

/// A circuit whose record is banned or soft-locked gets no challenge:
/// the admit-check turns it away, and the endpoint answers that it is
/// forbidden, with the reason of the record.
pub proof fn lemma_refused_circuit_gets_no_challenge(record: CircuitRecord)
    requires
        record.should_rate_limit(),
    ensures
        challenge_step(ChallengeStage::Request { has_circuit: true })
            == ChallengeStep::CheckCircuit,
        challenge_step(
            ChallengeStage::Admission {
                allowed: admission(Some(record)).0,
                reason: admission(Some(record)).1,
            },
        ) == (ChallengeStep::Refuse {
            status: STATUS_FORBIDDEN,
            message: if record.status == CircuitStatus::Banned {
                BANNED_REASON@
            } else {
                SOFT_LOCKED_REASON@
            },
        }),
{
}

/// After exactly `max` failures a new circuit that asks for a challenge
/// is forbidden for too many failed attempts, and gets none.
pub proof fn lemma_soft_locked_gets_no_challenge(
    circuit_id: Seq<char>,
    first_seen: int,
    max: nat,
    times: Seq<int>,
)
    requires
        1 <= max <= u32::MAX,
        times.len() == max,
    ensures
        ({
            let record = after_failures(CircuitRecord::fresh(circuit_id, first_seen), max, times);
            challenge_step(
                ChallengeStage::Admission {
                    allowed: admission(Some(record)).0,
                    reason: admission(Some(record)).1,
                },
            ) == (ChallengeStep::Refuse { status: STATUS_FORBIDDEN, message: SOFT_LOCKED_REASON@ })
        }),
{
    lemma_soft_lock_threshold(circuit_id, first_seen, max, times);
}

/// What a verification means for the record of the circuit that
/// answered.
#[derive(Debug)]
pub enum CircuitUpdate {
    /// The record stays as it is.
    Unchanged,
    /// A failure is recorded.
    Failure,
    /// A success is recorded, with the passport and its expiry.
    Success { passport_token: String, passport_expires: i64 },
}

/// What a verification means for a circuit's record, as a mathematical
/// value.
pub ghost enum RecordChange {
    Unchanged,
    Failure,
    Success { passport_token: Seq<char>, passport_expires: int },
}

impl View for CircuitUpdate {
    type V = RecordChange;

    open spec fn view(&self) -> RecordChange {
        match self {
            CircuitUpdate::Unchanged => RecordChange::Unchanged,
            CircuitUpdate::Failure => RecordChange::Failure,
            CircuitUpdate::Success { passport_token, passport_expires } => RecordChange::Success {
                passport_token: passport_token@,
                passport_expires: *passport_expires as int,
            },
        }
    }
}

/// What the outcome of a verification at `now` means for the record of
/// the circuit that answered, where passports are valid for `ttl`
/// seconds: a request without a circuit changes no record, a failed
/// verification records a failure, a successful one a success.
pub open spec fn record_change(
    result: CaptchaResult,
    has_circuit: bool,
    now: int,
    ttl: u64,
) -> RecordChange {
    if !has_circuit {
        RecordChange::Unchanged
    } else if result.success {
        match result.passport_token {
            Some(token) => RecordChange::Success {
                passport_token: token@,
                passport_expires: now + ttl,
            },
            None => RecordChange::Unchanged,
        }
    } else {
        RecordChange::Failure
    }
}

/// Decides what the outcome of a verification at `now` means for the
/// record of the circuit that answered.
pub fn circuit_update_at(result: &CaptchaResult, has_circuit: bool, now: i64, passport_ttl: u64) -> (update:
    CircuitUpdate)
    requires
        passport_ttl <= MAX_TTL_SECS,
        is_clock_reading(now),
    ensures
        update@ == record_change(*result, has_circuit, now as int, passport_ttl),
{
    if !has_circuit {
        CircuitUpdate::Unchanged
    } else if result.success {
        match &result.passport_token {
            Some(token) => CircuitUpdate::Success {
                passport_token: token.clone(),
                passport_expires: now + passport_ttl as i64,
            },
            None => CircuitUpdate::Unchanged,
        }
    } else {
        CircuitUpdate::Failure
    }
}

/// Decides what the outcome of a verification means for the record of
/// the circuit that answered.
pub fn verify_challenge(result: &CaptchaResult, has_circuit: bool, passport_ttl: u64) -> (update:
    CircuitUpdate)
    requires
        passport_ttl <= MAX_TTL_SECS,
    ensures
        exists|now: i64|
            is_clock_reading(now) && update@ == #[trigger] record_change(
                *result,
                has_circuit,
                now as int,
                passport_ttl,
            ),
        !has_circuit ==> update@ == RecordChange::Unchanged,
        has_circuit && !result.success ==> update@ == RecordChange::Failure,
{
    let now = unix_now();
    circuit_update_at(result, has_circuit, now, passport_ttl)
}

} // verus!
