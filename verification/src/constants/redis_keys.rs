//! Key prefixes in the shared store.

use vstd::prelude::*;

verus! {

/// Circuit record: `circuit:<circuit id>`.
pub const CIRCUIT_PREFIX: &'static str = "circuit:";

/// Pending challenge: `captcha:<challenge id>`.
pub const CAPTCHA_PREFIX: &'static str = "captcha:";

/// Local passport: `passport:<token>`.
pub const PASSPORT_PREFIX: &'static str = "passport:";

/// The cluster-wide threat level.
pub const THREAT_LEVEL: &'static str = "cerberus:threat_level";

/// Cluster node state: `cluster:node:<node id>`.
pub const CLUSTER_NODE_PREFIX: &'static str = "cluster:node:";

/// Metrics: `metrics:<name>`.
pub const METRICS_PREFIX: &'static str = "metrics:";

/// Rate-limit counter: `ratelimit:<circuit id>`.
pub const RATELIMIT_PREFIX: &'static str = "ratelimit:";

/// The store key made of `prefix` and `id`.
pub open spec fn key_of(prefix: Seq<char>, id: Seq<char>) -> Seq<char> {
    prefix + id
}

/// Builds the store key made of `prefix` and `id`.
pub fn make_key(prefix: &str, id: &str) -> (key: String)
    ensures
        key@ == key_of(prefix@, id@),
{
    let mut key = String::from_str(prefix);
    key.append(id);
    key
}

} // verus!
