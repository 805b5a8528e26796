//! The state machine of a circuit's record.
//!
//! A circuit is new until it solves a challenge; it is soft-locked when
//! it has failed too often, verified when it has solved one, a VIP from
//! its fifth solve on, and banned when an administrator says so. A ban
//! lasts until the store drops the record. The tracker decides what a
//! record becomes; the record itself lives in the shared store.

use vstd::prelude::*;

use crate::clock::{is_clock_reading, unix_now};
use crate::constants::redis_keys::{key_of, make_key, CIRCUIT_PREFIX, RATELIMIT_PREFIX};
use crate::constants::VIP_SOLVES;
use crate::types::{CircuitInfo, CircuitRecord, CircuitStatus};

verus! {

/// Why a banned circuit is turned away.
pub const BANNED_REASON: &'static str = "Circuit is banned";

/// Why a soft-locked circuit is turned away.
pub const SOFT_LOCKED_REASON: &'static str = "Too many failed attempts. Try again later.";

/// The record of a circuit that is seen at `now`: the record that the
/// store holds, or a fresh one.
pub open spec fn seen(existing: Option<CircuitRecord>, circuit_id: Seq<char>, now: int) -> CircuitRecord {
    match existing {
        Some(r) => CircuitRecord { last_seen: now, ..r },
        None => CircuitRecord::fresh(circuit_id, now),
    }
}

/// A counter after one more event: it counts up to the end of its range
/// and stays there.
pub open spec fn bumped(n: nat) -> nat {
    if n >= u32::MAX {
        u32::MAX as nat
    } else {
        n + 1
    }
}

/// The record after a failed attempt at `now`, where `max` failures
/// soft-lock a circuit. A ban stays.
pub open spec fn after_failure(r: CircuitRecord, max: nat, now: int) -> CircuitRecord {
    let attempts = bumped(r.failed_attempts);
    CircuitRecord {
        failed_attempts: attempts,
        last_seen: now,
        status: if r.status == CircuitStatus::Banned {
            CircuitStatus::Banned
        } else if attempts >= max {
            CircuitStatus::SoftLocked
        } else {
            r.status
        },
        ..r
    }
}

/// The record after a solve at `now` that earned the passport `token`,
/// valid until `expires`. A ban stays.
pub open spec fn after_success(
    r: CircuitRecord,
    token: Seq<char>,
    expires: int,
    now: int,
) -> CircuitRecord {
    let solves = bumped(r.successful_solves);
    CircuitRecord {
        successful_solves: solves,
        failed_attempts: 0,
        last_seen: now,
        passport_token: Some(token),
        passport_expires: Some(expires),
        status: if r.status == CircuitStatus::Banned {
            CircuitStatus::Banned
        } else if solves >= VIP_SOLVES {
            CircuitStatus::Vip
        } else {
            CircuitStatus::Verified
        },
        ..r
    }
}

/// Whether `after` is what a solve makes of a circuit whose record was
/// `before`, whatever the time: the failed attempts are cleared and the
/// passport and its expiry are attached; a circuit that is not banned is
/// verified, or a VIP from its fifth solve on, and a banned one stays
/// banned.
pub open spec fn solved(
    before: Option<CircuitRecord>,
    after: CircuitRecord,
    token: Seq<char>,
    expires: int,
) -> bool {
    &&& after.failed_attempts == 0
    &&& after.passport_token == Some(token)
    &&& after.passport_expires == Some(expires)
    &&& after.successful_solves == bumped(
        match before {
            Some(r) => r.successful_solves,
            None => 0,
        },
    )
    &&& if before matches Some(r) && r.status == CircuitStatus::Banned {
        after.status == CircuitStatus::Banned
    } else if after.successful_solves >= VIP_SOLVES {
        after.status == CircuitStatus::Vip
    } else {
        after.status == CircuitStatus::Verified
    }
}

/// The record after a ban at `now`.
pub open spec fn after_ban(r: CircuitRecord, now: int) -> CircuitRecord {
    CircuitRecord { status: CircuitStatus::Banned, last_seen: now, ..r }
}

/// Whether a circuit with the given record may make requests, and why
/// not. A circuit without a record may.
pub open spec fn admission(record: Option<CircuitRecord>) -> (bool, Option<Seq<char>>) {
    match record {
        Some(r) => if r.status == CircuitStatus::Banned {
            (false, Some(BANNED_REASON@))
        } else if r.status == CircuitStatus::SoftLocked {
            (false, Some(SOFT_LOCKED_REASON@))
        } else {
            (true, None)
        },
        None => (true, None),
    }
}

/// Whether the request that brought the window's counter to `count` is
/// within the limit of `max` requests, and how many more are.
pub open spec fn rate_decision(count: u32, max: u32) -> (bool, u32) {
    if count <= max {
        (true, (max - count) as u32)
    } else {
        (false, 0)
    }
}

/// How many of the first `n` requests of a window are within the limit.
pub open spec fn allowed_among(n: nat, max: u32) -> nat
    decreases n,
{
    if n == 0 {
        0
    } else {
        allowed_among((n - 1) as nat, max) + if n <= u32::MAX && rate_decision(n as u32, max).0 {
            1nat
        } else {
            0nat
        }
    }
}

/// The record after the failed attempts at the given times, in order.
pub open spec fn after_failures(r: CircuitRecord, max: nat, times: Seq<int>) -> CircuitRecord
    decreases times.len(),
{
    if times.len() == 0 {
        r
    } else {
        after_failure(after_failures(r, max, times.drop_last()), max, times.last())
    }
}

/// The view of an optional record.
pub open spec fn opt_record(o: Option<CircuitInfo>) -> Option<CircuitRecord> {
    match o {
        Some(r) => Some(r@),
        None => None,
    }
}

/// Where and for how long a record is written to the shared store.
#[derive(Debug)]
pub struct SavePlan {
    /// The store key: the circuit prefix and the circuit identifier.
    pub key: String,
    /// How long the store is to keep the record, in seconds.
    pub ttl_secs: u64,
}

/// Decides what becomes of circuit records.
pub struct CircuitTracker {
    circuit_ttl: u64,
    max_failed_attempts: u32,
    soft_lock_duration: u64,
    ban_duration: u64,
}

impl CircuitTracker {
    /// How long an ordinary record is kept, in seconds.
    pub closed spec fn circuit_ttl(&self) -> u64 {
        self.circuit_ttl
    }

    /// Failed attempts after which a circuit is soft-locked.
    pub closed spec fn max_failures(&self) -> u32 {
        self.max_failed_attempts
    }

    /// How long a soft-locked record is kept, in seconds.
    pub closed spec fn soft_lock_secs(&self) -> u64 {
        self.soft_lock_duration
    }

    /// How long a banned record is kept, in seconds.
    pub closed spec fn ban_secs(&self) -> u64 {
        self.ban_duration
    }

    /// How long a record of the given status is kept, in seconds.
    pub open spec fn ttl_for(&self, status: CircuitStatus) -> u64 {
        match status {
            CircuitStatus::Banned => self.ban_secs(),
            CircuitStatus::SoftLocked => self.soft_lock_secs(),
            _ => self.circuit_ttl(),
        }
    }

    /// Creates a tracker.
    pub fn new(
        circuit_ttl: u64,
        max_failed_attempts: u32,
        soft_lock_duration: u64,
        ban_duration: u64,
    ) -> (r: Self)
        ensures
            r.circuit_ttl() == circuit_ttl,
            r.max_failures() == max_failed_attempts,
            r.soft_lock_secs() == soft_lock_duration,
            r.ban_secs() == ban_duration,
    {
        CircuitTracker { circuit_ttl, max_failed_attempts, soft_lock_duration, ban_duration }
    }

    /// The store key of the record of `circuit_id`.
    pub fn circuit_key(circuit_id: &str) -> (key: String)
        ensures
            key@ == key_of(CIRCUIT_PREFIX@, circuit_id@),
    {
        make_key(CIRCUIT_PREFIX, circuit_id)
    }

    /// The store key of the rate-limit counter of `circuit_id`.
    pub fn rate_limit_key(circuit_id: &str) -> (key: String)
        ensures
            key@ == key_of(RATELIMIT_PREFIX@, circuit_id@),
    {
        make_key(RATELIMIT_PREFIX, circuit_id)
    }

    /// The record of a circuit seen at `now`, from what the store holds
    /// for it.
    pub fn get_or_create_at(&self, existing: Option<CircuitInfo>, circuit_id: &str, now: i64) -> (info:
        CircuitInfo)
        ensures
            info@ == seen(opt_record(existing), circuit_id@, now as int),
    {
        match existing {
            Some(mut info) => {
                info.last_seen = now;
                info
            },
            None => CircuitInfo::new_at(String::from_str(circuit_id), now),
        }
    }

    /// Get or create circuit info: the record that the store holds, seen
    /// now, or a fresh one.
    pub fn get_or_create(&self, existing: Option<CircuitInfo>, circuit_id: &str) -> (info:
        CircuitInfo)
        ensures
            is_clock_reading(info.last_seen),
            info@ == seen(opt_record(existing), circuit_id@, info.last_seen as int),
    {
        let now = unix_now();
        self.get_or_create_at(existing, circuit_id, now)
    }

    /// Where the record is saved, and for how long: a banned record for
    /// the length of a ban, a soft-locked one for the length of a
    /// soft-lock, any other for the ordinary time.
    pub fn save(&self, info: &CircuitInfo) -> (plan: SavePlan)
        ensures
            plan.key@ == key_of(CIRCUIT_PREFIX@, info@.circuit_id),
            plan.ttl_secs == self.ttl_for(info@.status),
    {
        let ttl_secs = match info.status {
            CircuitStatus::Banned => self.ban_duration,
            CircuitStatus::SoftLocked => self.soft_lock_duration,
            _ => self.circuit_ttl,
        };
        SavePlan { key: make_key(CIRCUIT_PREFIX, info.circuit_id.as_str()), ttl_secs }
    }

    /// The record after a failed attempt at `now`.
    pub fn record_failure_at(&self, existing: Option<CircuitInfo>, circuit_id: &str, now: i64) -> (info:
        CircuitInfo)
        ensures
            info@ == after_failure(
                seen(opt_record(existing), circuit_id@, now as int),
                self.max_failures() as nat,
                now as int,
            ),
    {
        let mut info = self.get_or_create_at(existing, circuit_id, now);
        if info.failed_attempts < u32::MAX {
            info.failed_attempts = info.failed_attempts + 1;
        }
        info.last_seen = now;
        if info.failed_attempts >= self.max_failed_attempts {
            match info.status {
                CircuitStatus::Banned => {},
                _ => {
                    info.status = CircuitStatus::SoftLocked;
                },
            }
        }
        info
    }

    /// Record a failed attempt.
    pub fn record_failure(&self, existing: Option<CircuitInfo>, circuit_id: &str) -> (info:
        CircuitInfo)
        ensures
            is_clock_reading(info.last_seen),
            info@ == after_failure(
                seen(opt_record(existing), circuit_id@, info.last_seen as int),
                self.max_failures() as nat,
                info.last_seen as int,
            ),
    {
        let now = unix_now();
        self.record_failure_at(existing, circuit_id, now)
    }

    /// The record after a solve at `now`.
    pub fn record_success_at(
        &self,
        existing: Option<CircuitInfo>,
        circuit_id: &str,
        passport_token: &str,
        passport_expires: i64,
        now: i64,
    ) -> (info: CircuitInfo)
        ensures
            info@ == after_success(
                seen(opt_record(existing), circuit_id@, now as int),
                passport_token@,
                passport_expires as int,
                now as int,
            ),
            solved(opt_record(existing), info@, passport_token@, passport_expires as int),
            !(existing matches Some(r) && r.status == CircuitStatus::Banned) ==> self.ttl_for(
                info@.status,
            ) == self.circuit_ttl(),
    {
        let mut info = self.get_or_create_at(existing, circuit_id, now);
        if info.successful_solves < u32::MAX {
            info.successful_solves = info.successful_solves + 1;
        }
        info.passport_token = Some(String::from_str(passport_token));
        info.passport_expires = Some(passport_expires);
        info.last_seen = now;
        info.failed_attempts = 0;
        match info.status {
            CircuitStatus::Banned => {},
            _ => {
                if info.successful_solves >= VIP_SOLVES {
                    info.status = CircuitStatus::Vip;
                } else {
                    info.status = CircuitStatus::Verified;
                }
            },
        }
        info
    }

    /// Record a successful solve.
    pub fn record_success(
        &self,
        existing: Option<CircuitInfo>,
        circuit_id: &str,
        passport_token: &str,
        passport_expires: i64,
    ) -> (info: CircuitInfo)
        ensures
            is_clock_reading(info.last_seen),
            info@ == after_success(
                seen(opt_record(existing), circuit_id@, info.last_seen as int),
                passport_token@,
                passport_expires as int,
                info.last_seen as int,
            ),
            solved(opt_record(existing), info@, passport_token@, passport_expires as int),
            !(existing matches Some(r) && r.status == CircuitStatus::Banned) ==> self.ttl_for(
                info@.status,
            ) == self.circuit_ttl(),
    {
        let now = unix_now();
        self.record_success_at(existing, circuit_id, passport_token, passport_expires, now)
    }

    /// The record after a ban at `now`.
    pub fn ban_at(&self, existing: Option<CircuitInfo>, circuit_id: &str, now: i64) -> (info:
        CircuitInfo)
        ensures
            info@ == after_ban(seen(opt_record(existing), circuit_id@, now as int), now as int),
    {
        let mut info = self.get_or_create_at(existing, circuit_id, now);
        info.status = CircuitStatus::Banned;
        info.last_seen = now;
        info
    }

    /// Ban a circuit.
    pub fn ban(&self, existing: Option<CircuitInfo>, circuit_id: &str, reason: &str) -> (info:
        CircuitInfo)
        ensures
            is_clock_reading(info.last_seen),
            info@ == after_ban(
                seen(opt_record(existing), circuit_id@, info.last_seen as int),
                info.last_seen as int,
            ),
    {
        let now = unix_now();
        self.ban_at(existing, circuit_id, now)
    }

    /// Check if a circuit is allowed to make requests, from the record
    /// that the store holds for it.
    pub fn is_allowed(&self, info: &Option<CircuitInfo>) -> (r: (bool, Option<String>))
        ensures
            r.0 == admission(opt_record(*info)).0,
            crate::types::opt_text(r.1) == admission(opt_record(*info)).1,
    {
        match info {
            Some(record) => match record.status {
                CircuitStatus::Banned => (false, Some(String::from_str(BANNED_REASON))),
                CircuitStatus::SoftLocked => (false, Some(String::from_str(SOFT_LOCKED_REASON))),
                _ => (true, None),
            },
            None => (true, None),
        }
    }

    /// Decides on a request from the value that the window's counter took
    /// when the request was counted: whether the request is within
    /// `max_requests_per_minute`, and how many more are.
    pub fn check_rate_limit(&self, count: u32, max_requests_per_minute: u32) -> (r: (bool, u32))
        ensures
            r == rate_decision(count, max_requests_per_minute),
    {
        if count <= max_requests_per_minute {
            (true, max_requests_per_minute - count)
        } else {
            (false, 0)
        }
    }

    /// Whether the request that brought the counter to `count` opened the
    /// window: the counter is then set to expire after a minute.
    pub fn opens_window(count: u32) -> (r: bool)
        ensures
            r == (count == 1),
    {
        count == 1
    }
}

/// After exactly `max` failures a new circuit is soft-locked and turned
/// away for too many failed attempts; before that it is new and let in.
pub proof fn lemma_soft_lock_threshold(circuit_id: Seq<char>, first_seen: int, max: nat, times: Seq<int>)
    requires
        1 <= max <= u32::MAX,
        times.len() <= max,
    ensures
        ({
            let r = after_failures(CircuitRecord::fresh(circuit_id, first_seen), max, times);
            &&& r.failed_attempts == times.len()
            &&& times.len() < max ==> r.status == CircuitStatus::New && admission(Some(r)).0
            &&& times.len() == max ==> r.status == CircuitStatus::SoftLocked && admission(Some(r))
                == (false, Some(SOFT_LOCKED_REASON@))
        }),
    decreases times.len(),
{
    if times.len() > 0 {
        lemma_soft_lock_threshold(circuit_id, first_seen, max, times.drop_last());
    }
}

/// A solve on a circuit that is not banned clears its failed attempts
/// and leaves it verified or a VIP; from the fifth solve on it is a VIP.
pub proof fn lemma_success_resets(r: CircuitRecord, token: Seq<char>, expires: int, now: int)
    requires
        r.status != CircuitStatus::Banned,
    ensures
        ({
            let s = after_success(r, token, expires, now);
            &&& s.failed_attempts == 0
            &&& s.status == CircuitStatus::Verified || s.status == CircuitStatus::Vip
            &&& s.successful_solves >= 5 <==> s.status == CircuitStatus::Vip
            &&& s.successful_solves == bumped(r.successful_solves)
            &&& s.passport_token == Some(token)
            &&& s.passport_expires == Some(expires)
        }),
{
}

/// A ban is final: neither a failure nor a solve lifts it, and a banned
/// circuit is turned away.
pub proof fn lemma_ban_is_terminal(
    r: CircuitRecord,
    max: nat,
    token: Seq<char>,
    expires: int,
    now: int,
)
    requires
        r.status == CircuitStatus::Banned,
    ensures
        after_failure(r, max, now).status == CircuitStatus::Banned,
        after_success(r, token, expires, now).status == CircuitStatus::Banned,
        after_ban(r, now).status == CircuitStatus::Banned,
        admission(Some(r)) == (false, Some(BANNED_REASON@)),
{
}

/// Of the first `n` requests of a window, counted one by one, exactly
/// the first `max` are within the limit.
pub proof fn lemma_rate_limit(n: nat, max: u32)
    requires
        n <= u32::MAX,
    ensures
        allowed_among(n, max) == if n <= max { n } else { max as nat },
        forall|k: u32| 1 <= k <= n ==> (#[trigger] rate_decision(k, max)).0 == (k <= max),
    decreases n,
{
    if n > 0 {
        lemma_rate_limit((n - 1) as nat, max);
    }
}

} // verus!
