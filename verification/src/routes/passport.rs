//! The endpoint that the upstream proxy asks before it lets a request
//! through.
//!
//! A request is looked at in three steps, and the first that objects
//! decides: the circuit must be allowed, it must be within its rate
//! limit, and the passport must be valid. A request that names no
//! circuit is judged by its passport alone. Where the shared store cannot
//! be asked, the endpoint says that the service is unavailable, and the
//! proxy lets nothing through.

use vstd::prelude::*;

use crate::circuits::tracker::rate_decision;
use crate::routes::{
    STATUS_FORBIDDEN, STATUS_SERVICE_UNAVAILABLE, STATUS_OK, STATUS_TOO_MANY_REQUESTS,
    STATUS_UNAUTHORIZED,
};

verus! {

/// What a request for validation carries.
#[derive(Debug)]
pub struct ValidateQuery {
    /// The passport to validate.
    pub token: String,
    /// The circuit that makes the request.
    pub circuit_id: Option<String>,
}

/// What the endpoint learns, step by step. `None` in a reply says that
/// the shared store could not be asked.
#[derive(Debug, Clone, Copy, PartialEq, Eq, Structural)]
pub enum ValidateEvent {
    /// A request arrived; `has_circuit` says whether it names a circuit.
    Request { has_circuit: bool },
    /// The admit-check said whether the circuit is allowed.
    Admission { allowed: Option<bool> },
    /// The request was counted, and the count is within the limit or not.
    RateLimit { allowed: Option<bool> },
    /// The store said whether it holds the passport.
    Passport { valid: Option<bool> },
}

/// What the endpoint does next.
#[derive(Debug, Clone, Copy, PartialEq, Eq, Structural)]
pub enum ValidateAction {
    /// Look the circuit's record up and check whether it is allowed.
    CheckCircuit,
    /// Count the request against the circuit's rate limit.
    CountRequest,
    /// Ask the store for the passport.
    CheckPassport,
    /// Answer with the given status.
    Respond(u16),
}

/// What the endpoint does after `event`.
pub open spec fn next_action(event: ValidateEvent) -> ValidateAction {
    match event {
        ValidateEvent::Request { has_circuit } => if has_circuit {
            ValidateAction::CheckCircuit
        } else {
            ValidateAction::CheckPassport
        },
        ValidateEvent::Admission { allowed } => match allowed {
            Some(true) => ValidateAction::CountRequest,
            Some(false) => ValidateAction::Respond(STATUS_FORBIDDEN),
            None => ValidateAction::Respond(STATUS_SERVICE_UNAVAILABLE),
        },
        ValidateEvent::RateLimit { allowed } => match allowed {
            Some(true) => ValidateAction::CheckPassport,
            Some(false) => ValidateAction::Respond(STATUS_TOO_MANY_REQUESTS),
            None => ValidateAction::Respond(STATUS_SERVICE_UNAVAILABLE),
        },
        ValidateEvent::Passport { valid } => match valid {
            Some(true) => ValidateAction::Respond(STATUS_OK),
            Some(false) => ValidateAction::Respond(STATUS_UNAUTHORIZED),
            None => ValidateAction::Respond(STATUS_SERVICE_UNAVAILABLE),
        },
    }
}

/// The status that a request is answered with, given what each step
/// would learn.
pub open spec fn validation_status(
    has_circuit: bool,
    admitted: Option<bool>,
    within_limit: Option<bool>,
    valid: Option<bool>,
) -> u16 {
    if has_circuit && admitted != Some(true) {
        if admitted is None {
            STATUS_SERVICE_UNAVAILABLE
        } else {
            STATUS_FORBIDDEN
        }
    } else if has_circuit && within_limit != Some(true) {
        if within_limit is None {
            STATUS_SERVICE_UNAVAILABLE
        } else {
            STATUS_TOO_MANY_REQUESTS
        }
    } else {
        match valid {
            Some(true) => STATUS_OK,
            Some(false) => STATUS_UNAUTHORIZED,
            None => STATUS_SERVICE_UNAVAILABLE,
        }
    }
}

/// Decides what the endpoint does after `event`.
pub fn validate_passport(event: ValidateEvent) -> (action: ValidateAction)
    ensures
        action == next_action(event),
{
    match event {
        ValidateEvent::Request { has_circuit } => {
            if has_circuit {
                ValidateAction::CheckCircuit
            } else {
                ValidateAction::CheckPassport
            }
        },
        ValidateEvent::Admission { allowed } => match allowed {
            Some(true) => ValidateAction::CountRequest,
            Some(false) => ValidateAction::Respond(STATUS_FORBIDDEN),
            None => ValidateAction::Respond(STATUS_SERVICE_UNAVAILABLE),
        },
        ValidateEvent::RateLimit { allowed } => match allowed {
            Some(true) => ValidateAction::CheckPassport,
            Some(false) => ValidateAction::Respond(STATUS_TOO_MANY_REQUESTS),
            None => ValidateAction::Respond(STATUS_SERVICE_UNAVAILABLE),
        },
        ValidateEvent::Passport { valid } => match valid {
            Some(true) => ValidateAction::Respond(STATUS_OK),
            Some(false) => ValidateAction::Respond(STATUS_UNAUTHORIZED),
            None => ValidateAction::Respond(STATUS_SERVICE_UNAVAILABLE),
        },
    }
}

/// The status that a run of the endpoint ends with, where each step that
/// is taken learns what is given for it.
pub open spec fn run_status(
    has_circuit: bool,
    admitted: Option<bool>,
    within_limit: Option<bool>,
    valid: Option<bool>,
) -> u16 {
    let passport = next_action(ValidateEvent::Passport { valid });
    let counted = match next_action(ValidateEvent::RateLimit { allowed: within_limit }) {
        ValidateAction::CheckPassport => passport,
        other => other,
    };
    let checked = match next_action(ValidateEvent::Admission { allowed: admitted }) {
        ValidateAction::CountRequest => counted,
        other => other,
    };
    let last = match next_action(ValidateEvent::Request { has_circuit }) {
        ValidateAction::CheckCircuit => checked,
        _ => passport,
    };
    match last {
        ValidateAction::Respond(status) => status,
        _ => STATUS_SERVICE_UNAVAILABLE,
    }
}

/// A run of the endpoint ends with the status that the three steps call
/// for: the first step that objects decides.
pub proof fn lemma_run_status(
    has_circuit: bool,
    admitted: Option<bool>,
    within_limit: Option<bool>,
    valid: Option<bool>,
)
    ensures
        run_status(has_circuit, admitted, within_limit, valid) == validation_status(
            has_circuit,
            admitted,
            within_limit,
            valid,
        ),
{
}

/// What a node answers to a cross-node passport: it serves the holder of
/// one that it accepts, and tells the holder of any other that it is
/// not authorised, without saying why.
pub fn cross_node_status(accepted: bool) -> (status: u16)
    ensures
        status == if accepted { STATUS_OK } else { STATUS_UNAUTHORIZED },
{
    if accepted {
        STATUS_OK
    } else {
        STATUS_UNAUTHORIZED
    }
}

/// Within one window, of the requests of an allowed circuit with a valid
/// passport, the one that brings the counter to `count` is served if the
/// count is at most `max`, and is told that there were too many
/// otherwise.
pub proof fn lemma_rate_limited_status(count: u32, max: u32)
    ensures
        validation_status(true, Some(true), Some(rate_decision(count, max).0), Some(true)) == if count
            <= max {
            STATUS_OK
        } else {
            STATUS_TOO_MANY_REQUESTS
        },
{
}

} // verus!
