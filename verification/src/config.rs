//! Configuration of the gateway.

use vstd::prelude::*;

use crate::constants::{
    BAN_DURATION_SECS, CAPTCHA_TTL_SECS, DEFAULT_LISTEN_ADDR, DEFAULT_PASSPORT_TTL_SECS,
    DEFAULT_REDIS_URL, MAX_FAILED_ATTEMPTS, SOFT_LOCK_DURATION_SECS,
};
use crate::random::random_u32;
use crate::text::push_char;
use crate::types::THREAT_LEVEL_DEFAULT;

verus! {

/// Where the font of the challenge text is found by default.
pub const DEFAULT_FONT_PATH: &'static str = "assets/fonts/DejaVuSans.ttf";

/// Requests that a circuit may make in a minute by default.
pub const DEFAULT_MAX_REQUESTS: u32 = 60;

/// What begins the name of a node that was given none.
pub const NODE_ID_PREFIX: &'static str = "node-";

/// What was given on the command line.
#[derive(Debug)]
pub struct Args {
    /// Path of the configuration file.
    pub config: String,
    /// URL of the shared store; overrides the configuration.
    pub redis_url: Option<String>,
    /// Listen address; overrides the configuration.
    pub listen: Option<String>,
    /// Log level.
    pub log_level: String,
    /// Whether logs are written as JSON.
    pub json_logs: bool,
}

/// Settings of challenges.
#[derive(Debug)]
pub struct CaptchaConfig {
    /// Path of the font of the challenge text.
    pub font_path: String,
    /// How long a passport is valid, in seconds.
    pub passport_ttl_secs: u64,
    /// How long a challenge may be answered, in seconds.
    pub challenge_ttl_secs: u64,
}

/// Settings of rate limiting.
#[derive(Debug)]
pub struct RateLimitConfig {
    /// Requests that a circuit may make in a minute.
    pub max_requests_per_minute: u32,
    /// Failed attempts after which a circuit is soft-locked.
    pub max_failed_attempts: u32,
    /// How long a soft-lock lasts, in seconds.
    pub soft_lock_duration_secs: u64,
    /// How long a ban lasts, in seconds.
    pub ban_duration_secs: u64,
}

/// Settings of the gateway.
#[derive(Debug)]
pub struct AppConfig {
    /// URL of the shared store.
    pub redis_url: String,
    /// HTTP listen address.
    pub listen_addr: String,
    /// The threat level at start, from 0 to 10.
    pub initial_threat_level: u8,
    /// Whether the node is part of a cluster.
    pub cluster_enabled: bool,
    /// The name of this node.
    pub node_id: String,
    /// Settings of challenges.
    pub captcha: CaptchaConfig,
    /// Settings of rate limiting.
    pub rate_limit: RateLimitConfig,
}

pub fn default_redis_url() -> (r: String)
    ensures
        r@ == DEFAULT_REDIS_URL@,
{
    String::from_str(DEFAULT_REDIS_URL)
}

pub fn default_listen_addr() -> (r: String)
    ensures
        r@ == DEFAULT_LISTEN_ADDR@,
{
    String::from_str(DEFAULT_LISTEN_ADDR)
}

pub fn default_threat_level() -> (r: u8)
    ensures
        r == THREAT_LEVEL_DEFAULT,
{
    THREAT_LEVEL_DEFAULT
}

pub fn default_font_path() -> (r: String)
    ensures
        r@ == DEFAULT_FONT_PATH@,
{
    String::from_str(DEFAULT_FONT_PATH)
}

pub fn default_passport_ttl() -> (r: u64)
    ensures
        r == 600,
{
    DEFAULT_PASSPORT_TTL_SECS
}

pub fn default_challenge_ttl() -> (r: u64)
    ensures
        r == 300,
{
    CAPTCHA_TTL_SECS
}

pub fn default_max_requests() -> (r: u32)
    ensures
        r == 60,
{
    DEFAULT_MAX_REQUESTS
}

pub fn default_max_failures() -> (r: u32)
    ensures
        r == 5,
{
    MAX_FAILED_ATTEMPTS
}

pub fn default_soft_lock() -> (r: u64)
    ensures
        r == 1800,
{
    SOFT_LOCK_DURATION_SECS
}

pub fn default_ban_duration() -> (r: u64)
    ensures
        r == 3600,
{
    BAN_DURATION_SECS
}

/// The small hexadecimal digit of `d`, a number below 16.
pub open spec fn small_hex_digit(d: nat) -> char {
    if d < 10 {
        ((48 + d) as u8) as char
    } else {
        ((87 + d) as u8) as char
    }
}

/// The last `digits` hexadecimal digits of `n`, in small letters.
pub open spec fn small_hex(n: nat, digits: nat) -> Seq<char>
    decreases digits,
{
    if digits == 0 {
        Seq::empty()
    } else {
        small_hex(n / 16, (digits - 1) as nat).push(small_hex_digit(n % 16))
    }
}

/// The name of a node that was given none: the prefix, then the eight
/// hexadecimal digits of `n`.
pub open spec fn node_id_of(n: u32) -> Seq<char> {
    NODE_ID_PREFIX@ + small_hex(n as nat, 8)
}

/// Appends the last `digits` hexadecimal digits of `n`.
fn push_small_hex(out: &mut String, n: u32, digits: u8)
    ensures
        final(out)@ == old(out)@ + small_hex(n as nat, digits as nat),
    decreases digits,
{
    if digits == 0 {
        proof {
            assert(old(out)@ + small_hex(n as nat, 0) =~= old(out)@);
        }
    } else {
        push_small_hex(out, n / 16, digits - 1);
        let d: u8 = (n % 16) as u8;
        let c = if d < 10 {
            (48 + d) as char
        } else {
            (87 + d) as char
        };
        push_char(out, c);
        proof {
            assert(final(out)@ =~= old(out)@ + small_hex(n as nat, digits as nat));
        }
    }
}

/// The name of a node that was given none, made from the number `n`.
pub fn node_id_from(n: u32) -> (id: String)
    ensures
        id@ == node_id_of(n),
{
    let mut id = String::from_str(NODE_ID_PREFIX);
    push_small_hex(&mut id, n, 8);
    id
}

/// Makes up the name of a node that was given none, from a random
/// number.
pub fn generate_node_id() -> (id: String)
    ensures
        exists|n: u32| id@ == #[trigger] node_id_of(n),
{
    let n = random_u32();
    let id = node_id_from(n);
    proof {
        assert(id@ == node_id_of(n));
    }
    id
}

impl Default for CaptchaConfig {
    fn default() -> (r: Self)
        ensures
            r.font_path@ == DEFAULT_FONT_PATH@,
            r.passport_ttl_secs == 600,
            r.challenge_ttl_secs == 300,
    {
        CaptchaConfig {
            font_path: default_font_path(),
            passport_ttl_secs: default_passport_ttl(),
            challenge_ttl_secs: default_challenge_ttl(),
        }
    }
}

impl Default for RateLimitConfig {
    fn default() -> (r: Self)
        ensures
            r.max_requests_per_minute == 60,
            r.max_failed_attempts == 5,
            r.soft_lock_duration_secs == 1800,
            r.ban_duration_secs == 3600,
    {
        RateLimitConfig {
            max_requests_per_minute: default_max_requests(),
            max_failed_attempts: default_max_failures(),
            soft_lock_duration_secs: default_soft_lock(),
            ban_duration_secs: default_ban_duration(),
        }
    }
}

impl Default for AppConfig {
    fn default() -> (r: Self)
        ensures
            r.redis_url@ == DEFAULT_REDIS_URL@,
            r.listen_addr@ == DEFAULT_LISTEN_ADDR@,
            r.initial_threat_level == THREAT_LEVEL_DEFAULT,
            !r.cluster_enabled,
            exists|n: u32| r.node_id@ == #[trigger] node_id_of(n),
            r.captcha.passport_ttl_secs == 600,
            r.captcha.challenge_ttl_secs == 300,
            r.captcha.font_path@ == DEFAULT_FONT_PATH@,
            r.rate_limit.max_requests_per_minute == 60,
            r.rate_limit.max_failed_attempts == 5,
            r.rate_limit.soft_lock_duration_secs == 1800,
            r.rate_limit.ban_duration_secs == 3600,
    {
        AppConfig {
            redis_url: default_redis_url(),
            listen_addr: default_listen_addr(),
            initial_threat_level: default_threat_level(),
            cluster_enabled: false,
            node_id: generate_node_id(),
            captcha: CaptchaConfig::default(),
            rate_limit: RateLimitConfig::default(),
        }
    }
}

impl AppConfig {
    /// Load configuration: what the configuration file gave, or the
    /// defaults where there is no such file, with what was given on the
    /// command line put over it.
    pub fn load(from_file: Option<AppConfig>, args: &Args) -> (config: Self)
        ensures
            config.redis_url@ == match args.redis_url {
                Some(url) => url@,
                None => match from_file {
                    Some(file) => file.redis_url@,
                    None => DEFAULT_REDIS_URL@,
                },
            },
            config.listen_addr@ == match args.listen {
                Some(addr) => addr@,
                None => match from_file {
                    Some(file) => file.listen_addr@,
                    None => DEFAULT_LISTEN_ADDR@,
                },
            },
            from_file matches Some(file) ==> {
                &&& config.initial_threat_level == file.initial_threat_level
                &&& config.cluster_enabled == file.cluster_enabled
                &&& config.node_id == file.node_id
                &&& config.captcha == file.captcha
                &&& config.rate_limit == file.rate_limit
            },
            from_file is None ==> {
                &&& config.initial_threat_level == THREAT_LEVEL_DEFAULT
                &&& !config.cluster_enabled
                &&& exists|n: u32| config.node_id@ == #[trigger] node_id_of(n)
                &&& config.captcha.passport_ttl_secs == 600
                &&& config.captcha.challenge_ttl_secs == 300
                &&& config.captcha.font_path@ == DEFAULT_FONT_PATH@
                &&& config.rate_limit.max_requests_per_minute == 60
                &&& config.rate_limit.max_failed_attempts == 5
                &&& config.rate_limit.soft_lock_duration_secs == 1800
                &&& config.rate_limit.ban_duration_secs == 3600
            },
    {
        let mut config = match from_file {
            Some(file) => file,
            None => AppConfig::default(),
        };
        match &args.redis_url {
            Some(url) => {
                config.redis_url = url.clone();
            },
            None => {},
        }
        match &args.listen {
            Some(addr) => {
                config.listen_addr = addr.clone();
            },
            None => {},
        }
        config
    }
}

} // verus!
