//! Core types shared by the gateway's components.

use vstd::prelude::*;

use crate::clock::{is_clock_reading, unix_now};

verus! {

/// The lowest threat level: no challenge is asked.
pub const THREAT_LEVEL_MIN: u8 = 0;

/// The highest threat level: maximum lockdown.
pub const THREAT_LEVEL_MAX: u8 = 10;

/// The threat level of a node that was told none.
pub const THREAT_LEVEL_DEFAULT: u8 = 5;

/// Threat dial level, from 0 to 10. It controls how often and how hard
/// circuits are challenged.
///
/// - 0: no challenges (development only)
/// - 1-3: light protection
/// - 4-6: standard protection
/// - 7-9: high protection (under attack)
/// - 10: maximum lockdown
#[derive(Debug, Clone, Copy, PartialEq, Eq, Structural, PartialOrd, Ord)]
pub struct ThreatLevel(u8);

impl View for ThreatLevel {
    type V = int;

    closed spec fn view(&self) -> int {
        self.0 as int
    }
}

/// The number of challenges asked at threat level `level`.
pub open spec fn challenge_count(level: int) -> int {
    if level <= 0 {
        0
    } else if level <= 3 {
        1
    } else if level <= 6 {
        2
    } else if level <= 9 {
        3
    } else {
        5
    }
}

/// The difficulty of the challenges asked at threat level `level`.
pub open spec fn difficulty_at(level: int) -> CaptchaDifficulty {
    if level <= 3 {
        CaptchaDifficulty::Easy
    } else if level <= 6 {
        CaptchaDifficulty::Medium
    } else if level <= 9 {
        CaptchaDifficulty::Hard
    } else {
        CaptchaDifficulty::Extreme
    }
}

impl ThreatLevel {
    #[verifier::type_invariant]
    closed spec fn in_range(self) -> bool {
        self.0 <= 10
    }

    /// Creates a threat level, clamping `level` to the range from 0 to 10.
    pub fn new(level: u8) -> (r: Self)
        ensures
            r@ == if level <= 10 { level as int } else { 10 },
    {
        if level > 10 {
            ThreatLevel(10)
        } else {
            ThreatLevel(level)
        }
    }

    /// The level as a number from 0 to 10.
    pub fn value(&self) -> (v: u8)
        ensures
            v == self@,
            v <= 10,
    {
        proof {
            use_type_invariant(self);
        }
        self.0
    }

    /// Returns true if this level requires a challenge.
    pub fn requires_captcha(&self) -> (r: bool)
        ensures
            r == (self@ > 0),
    {
        self.0 > 0
    }

    /// Returns the number of challenges required at this level.
    pub fn captcha_count(&self) -> (n: u8)
        ensures
            n == challenge_count(self@),
    {
        proof {
            use_type_invariant(self);
        }
        if self.0 == 0 {
            0
        } else if self.0 <= 3 {
            1
        } else if self.0 <= 6 {
            2
        } else if self.0 <= 9 {
            3
        } else {
            5
        }
    }

    /// Returns the difficulty of the challenges at this level.
    pub fn captcha_difficulty(&self) -> (d: CaptchaDifficulty)
        ensures
            d == difficulty_at(self@),
    {
        if self.0 <= 3 {
            CaptchaDifficulty::Easy
        } else if self.0 <= 6 {
            CaptchaDifficulty::Medium
        } else if self.0 <= 9 {
            CaptchaDifficulty::Hard
        } else {
            CaptchaDifficulty::Extreme
        }
    }
}

impl Default for ThreatLevel {
    fn default() -> (r: Self)
        ensures
            r@ == THREAT_LEVEL_DEFAULT,
    {
        ThreatLevel(5)
    }
}

impl From<u8> for ThreatLevel {
    fn from(value: u8) -> (r: Self) {
        ThreatLevel::new(value)
    }
}

impl vstd::std_specs::convert::FromSpecImpl<u8> for ThreatLevel {
    open spec fn obeys_from_spec() -> bool {
        true
    }

    open spec fn from_spec(value: u8) -> Self {
        clamped_level(value)
    }
}

/// The threat level that `level` is clamped to.
pub closed spec fn clamped_level(level: u8) -> ThreatLevel {
    if level <= 10 {
        ThreatLevel(level)
    } else {
        ThreatLevel(10)
    }
}

/// The level that a raw reading is clamped to has the reading's value
/// where that is at most 10, and 10 otherwise.
pub proof fn lemma_clamped_level(level: u8)
    ensures
        clamped_level(level)@ == if level <= 10 { level as int } else { 10 },
{
}

/// Challenge difficulty levels.
#[derive(Debug, Clone, Copy, PartialEq, Eq, Structural)]
pub enum CaptchaDifficulty {
    /// 2x2 grid, simple distortion.
    Easy,
    /// 3x3 grid, moderate distortion.
    Medium,
    /// 4x4 grid, heavy distortion.
    Hard,
    /// 5x5 grid, extreme distortion and time pressure.
    Extreme,
}

impl CaptchaDifficulty {
    /// The grid dimensions, columns then rows.
    pub open spec fn spec_grid_size(&self) -> (u8, u8) {
        match self {
            CaptchaDifficulty::Easy => (2, 2),
            CaptchaDifficulty::Medium => (3, 3),
            CaptchaDifficulty::Hard => (4, 4),
            CaptchaDifficulty::Extreme => (5, 5),
        }
    }

    /// The time a client is given to solve, in seconds.
    pub open spec fn spec_timeout_secs(&self) -> u32 {
        match self {
            CaptchaDifficulty::Easy => 60,
            CaptchaDifficulty::Medium => 45,
            CaptchaDifficulty::Hard => 30,
            CaptchaDifficulty::Extreme => 20,
        }
    }

    /// Grid dimensions (columns, rows) of a challenge of this difficulty.
    pub fn grid_size(&self) -> (g: (u8, u8))
        ensures
            g == self.spec_grid_size(),
    {
        match self {
            CaptchaDifficulty::Easy => (2, 2),
            CaptchaDifficulty::Medium => (3, 3),
            CaptchaDifficulty::Hard => (4, 4),
            CaptchaDifficulty::Extreme => (5, 5),
        }
    }

    /// Solve timeout in seconds for this difficulty.
    pub fn timeout_secs(&self) -> (t: u32)
        ensures
            t == self.spec_timeout_secs(),
    {
        match self {
            CaptchaDifficulty::Easy => 60,
            CaptchaDifficulty::Medium => 45,
            CaptchaDifficulty::Hard => 30,
            CaptchaDifficulty::Extreme => 20,
        }
    }
}

/// Where a circuit stands.
#[derive(Debug, Clone, Copy, PartialEq, Eq, Structural)]
pub enum CircuitStatus {
    /// Never solved a challenge.
    New,
    /// Solved a challenge and holds a passport.
    Verified,
    /// Failed too many challenges.
    SoftLocked,
    /// Banned by an administrator or by abuse detection.
    Banned,
    /// Verified, with a record of good behaviour.
    Vip,
}

impl Default for CircuitStatus {
    fn default() -> (r: Self)
        ensures
            r == CircuitStatus::New,
    {
        CircuitStatus::New
    }
}

/// The text of an optional string.
pub open spec fn opt_text(o: Option<String>) -> Option<Seq<char>> {
    match o {
        Some(s) => Some(s@),
        None => None,
    }
}

/// A copy of an optional string.
pub fn clone_opt(o: &Option<String>) -> (r: Option<String>)
    ensures
        r == *o,
{
    match o {
        Some(t) => Some(t.clone()),
        None => None,
    }
}

/// What the gateway knows of one circuit.
#[derive(Debug)]
pub struct CircuitInfo {
    /// The circuit identifier that the upstream proxy assigned.
    pub circuit_id: String,
    /// Current status.
    pub status: CircuitStatus,
    /// Failed attempts since the last success.
    pub failed_attempts: u32,
    /// Successful solves in all.
    pub successful_solves: u32,
    /// Unix time at which the circuit was first seen.
    pub first_seen: i64,
    /// Unix time of the last activity.
    pub last_seen: i64,
    /// The passport issued at the last success.
    pub passport_token: Option<String>,
    /// Unix time at which that passport expires.
    pub passport_expires: Option<i64>,
}

/// A circuit record as a mathematical value.
pub ghost struct CircuitRecord {
    pub circuit_id: Seq<char>,
    pub status: CircuitStatus,
    pub failed_attempts: nat,
    pub successful_solves: nat,
    pub first_seen: int,
    pub last_seen: int,
    pub passport_token: Option<Seq<char>>,
    pub passport_expires: Option<int>,
}

impl View for CircuitInfo {
    type V = CircuitRecord;

    open spec fn view(&self) -> CircuitRecord {
        CircuitRecord {
            circuit_id: self.circuit_id@,
            status: self.status,
            failed_attempts: self.failed_attempts as nat,
            successful_solves: self.successful_solves as nat,
            first_seen: self.first_seen as int,
            last_seen: self.last_seen as int,
            passport_token: opt_text(self.passport_token),
            passport_expires: match self.passport_expires {
                Some(t) => Some(t as int),
                None => None,
            },
        }
    }
}

impl Clone for CircuitInfo {
    fn clone(&self) -> (r: Self)
        ensures
            r == *self,
    {
        CircuitInfo {
            circuit_id: self.circuit_id.clone(),
            status: self.status,
            failed_attempts: self.failed_attempts,
            successful_solves: self.successful_solves,
            first_seen: self.first_seen,
            last_seen: self.last_seen,
            passport_token: clone_opt(&self.passport_token),
            passport_expires: self.passport_expires,
        }
    }
}

impl CircuitRecord {
    /// The record of a circuit first seen at `now`.
    pub open spec fn fresh(circuit_id: Seq<char>, now: int) -> CircuitRecord {
        CircuitRecord {
            circuit_id,
            status: CircuitStatus::New,
            failed_attempts: 0,
            successful_solves: 0,
            first_seen: now,
            last_seen: now,
            passport_token: None,
            passport_expires: None,
        }
    }

    /// Whether the record holds a passport that has not expired at `now`.
    pub open spec fn has_valid_passport(self, now: int) -> bool {
        self.passport_token is Some && self.passport_expires is Some && now
            < self.passport_expires->0
    }

    /// Whether requests of the circuit are to be held back.
    pub open spec fn should_rate_limit(self) -> bool {
        self.status == CircuitStatus::SoftLocked || self.status == CircuitStatus::Banned
    }
}

impl CircuitInfo {
    /// The record of a circuit first seen at `now`.
    pub fn new_at(circuit_id: String, now: i64) -> (info: Self)
        ensures
            info@ == CircuitRecord::fresh(circuit_id@, now as int),
    {
        CircuitInfo {
            circuit_id,
            status: CircuitStatus::New,
            failed_attempts: 0,
            successful_solves: 0,
            first_seen: now,
            last_seen: now,
            passport_token: None,
            passport_expires: None,
        }
    }

    /// The record of a circuit first seen now.
    pub fn new(circuit_id: String) -> (info: Self)
        ensures
            is_clock_reading(info.first_seen),
            info@ == CircuitRecord::fresh(circuit_id@, info.first_seen as int),
    {
        let now = unix_now();
        CircuitInfo::new_at(circuit_id, now)
    }

    /// Whether the passport of the record is valid at `now`.
    pub fn has_valid_passport_at(&self, now: i64) -> (r: bool)
        ensures
            r == self@.has_valid_passport(now as int),
    {
        match (&self.passport_token, self.passport_expires) {
            (Some(_), Some(expires)) => now < expires,
            _ => false,
        }
    }

    /// Check if the passport is currently valid.
    pub fn has_valid_passport(&self) -> (r: bool)
        ensures
            exists|now: i64| is_clock_reading(now) && r == self@.has_valid_passport(now as int),
            (self@.passport_token is None || self@.passport_expires is None) ==> !r,
    {
        let now = unix_now();
        self.has_valid_passport_at(now)
    }

    /// Check if this circuit should be rate-limited.
    pub fn should_rate_limit(&self) -> (r: bool)
        ensures
            r == self@.should_rate_limit(),
    {
        match self.status {
            CircuitStatus::SoftLocked | CircuitStatus::Banned => true,
            _ => false,
        }
    }
}

/// A challenge as it is sent to the client.
#[derive(Debug)]
pub struct CaptchaChallenge {
    /// Unique challenge identifier.
    pub challenge_id: String,
    /// The image, as a data URL.
    pub image_data: String,
    /// Grid dimensions (columns, rows).
    pub grid_size: (u8, u8),
    /// Instructions for the user.
    pub instructions: String,
    /// Expected click positions; never sent to the client.
    pub expected_positions: Vec<(u8, u8)>,
    /// Unix time at which the challenge expires.
    pub expires_at: i64,
}

/// The outcome of a verification.
#[derive(Debug)]
pub struct CaptchaResult {
    /// Whether the answer was accepted.
    pub success: bool,
    /// How many challenges the client still has to solve.
    pub remaining_challenges: u8,
    /// The passport issued on success.
    pub passport_token: Option<String>,
    /// Why verification failed.
    pub error_message: Option<String>,
}

/// A verification outcome as a mathematical value.
pub ghost struct Verdict {
    pub success: bool,
    pub remaining_challenges: nat,
    pub passport_token: Option<Seq<char>>,
    pub error_message: Option<Seq<char>>,
}

impl View for CaptchaResult {
    type V = Verdict;

    open spec fn view(&self) -> Verdict {
        Verdict {
            success: self.success,
            remaining_challenges: self.remaining_challenges as nat,
            passport_token: opt_text(self.passport_token),
            error_message: opt_text(self.error_message),
        }
    }
}

impl Clone for CaptchaResult {
    fn clone(&self) -> (r: Self)
        ensures
            r == *self,
    {
        CaptchaResult {
            success: self.success,
            remaining_challenges: self.remaining_challenges,
            passport_token: clone_opt(&self.passport_token),
            error_message: clone_opt(&self.error_message),
        }
    }
}

/// The state of one cluster node.
#[derive(Debug)]
pub struct ClusterNode {
    /// Unique node identifier.
    pub node_id: String,
    /// Host name or IP address.
    pub address: String,
    /// Tunnel endpoint.
    pub wireguard_endpoint: String,
    /// Whether the node is healthy.
    pub healthy: bool,
    /// Unix time of the last heartbeat.
    pub last_heartbeat: i64,
    /// Threat level on the node.
    pub threat_level: ThreatLevel,
}

} // verus!
