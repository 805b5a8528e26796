//! HTTP header names.

use vstd::prelude::*;

verus! {

/// Carries the circuit identifier that the upstream proxy assigned.
pub const X_CIRCUIT_ID: &'static str = "X-Circuit-Id";

/// Carries the local passport on admit-check paths.
pub const X_PASSPORT_TOKEN: &'static str = "X-Passport-Token";

/// Carries the threat level between internal components.
pub const X_THREAT_LEVEL: &'static str = "X-Threat-Level";

/// Carries the node identifier between cluster nodes.
pub const X_NODE_ID: &'static str = "X-Node-Id";

} // verus!
