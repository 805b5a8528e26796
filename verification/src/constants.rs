//! Defaults and well-known names shared by the gateway's components.

use vstd::prelude::*;

pub mod headers;
pub mod redis_keys;

verus! {

/// Default connection URL of the shared store.
pub const DEFAULT_REDIS_URL: &'static str = "redis://127.0.0.1:6379";

/// Default HTTP listen address.
pub const DEFAULT_LISTEN_ADDR: &'static str = "127.0.0.1:8888";

/// Default passport validity, in seconds.
pub const DEFAULT_PASSPORT_TTL_SECS: u64 = 600;

/// Failed attempts after which a circuit is soft-locked.
pub const MAX_FAILED_ATTEMPTS: u32 = 5;

/// How long a soft-locked record is kept, in seconds.
pub const SOFT_LOCK_DURATION_SECS: u64 = 1800;

/// How long a banned record is kept, in seconds.
pub const BAN_DURATION_SECS: u64 = 3600;

/// How long any other circuit record is kept, in seconds.
pub const CIRCUIT_TTL_SECS: u64 = 1800;

/// How long a pending challenge is kept, in seconds.
pub const CAPTCHA_TTL_SECS: u64 = 300;

/// Seconds between two cluster heartbeats.
pub const CLUSTER_HEARTBEAT_INTERVAL_SECS: u64 = 5;

/// Seconds of silence after which a cluster node counts as gone.
pub const CLUSTER_NODE_TIMEOUT_SECS: u64 = 15;

/// Length of the rate-limit window, in seconds.
pub const RATE_LIMIT_WINDOW_SECS: u64 = 60;

/// Successful solves from which a circuit is promoted to VIP.
pub const VIP_SOLVES: u32 = 5;

} // verus!
