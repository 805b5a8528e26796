//! Challenge generation.
//!
//! A challenge takes its answer and image from the pool of challenges
//! made in advance, or is made on the spot where the pool is empty. What
//! the client gets never holds the answer; the answer goes to the shared
//! store, under the challenge's key, until it is verified or expires.

use vstd::prelude::*;

use crate::captcha::ammo_box::{
    generate_answer, is_answer, is_image_url_of, AmmoBox, AmmoBoxStats,
    counted,
};
use crate::captcha::svg::{data_url, is_image_of, random_svg};
use crate::captcha::{PendingChallenge, StoredChallenge};
use crate::clock::{is_clock_reading, unix_now, MAX_TTL_SECS};
use crate::codec::{b64url_encoded, encode_b64url, is_b64url_char};
use crate::constants::redis_keys::{key_of, make_key, CAPTCHA_PREFIX};
use crate::random::random_bytes;
use crate::types::{opt_text, CaptchaChallenge, CaptchaDifficulty};

verus! {

/// Number of random bytes in a challenge identifier.
pub const CHALLENGE_ID_BYTES: usize = 16;

/// Generates challenges.
pub struct CaptchaGenerator {
    /// How long a challenge may be answered, in seconds.
    pub challenge_ttl: u64,
}

/// A challenge that was issued: what the client gets, and what is to be
/// written to the shared store.
#[derive(Debug)]
pub struct IssuedChallenge {
    /// What the client gets.
    pub challenge: CaptchaChallenge,
    /// The store key: the challenge prefix and the identifier.
    pub key: String,
    /// The pending challenge to keep under the key.
    pub stored: StoredChallenge,
    /// How long the store is to keep it, in seconds.
    pub ttl_secs: u64,
}

/// The words that tell the user what to do at the given difficulty.
pub open spec fn instructions_for(difficulty: CaptchaDifficulty) -> Seq<char> {
    match difficulty {
        CaptchaDifficulty::Easy => "Type the characters shown above"@,
        CaptchaDifficulty::Medium => "Type the characters shown above (case insensitive)"@,
        CaptchaDifficulty::Hard => "Type the characters exactly as shown"@,
        CaptchaDifficulty::Extreme => "Type the characters within 20 seconds"@,
    }
}

/// Number of characters in a challenge identifier.
pub const CHALLENGE_ID_LEN: usize = 22;

/// Whether `id` is the base64 of 16 bytes, which is 22 characters of the
/// URL-safe alphabet.
pub open spec fn is_challenge_id(id: Seq<char>) -> bool {
    &&& id.len() == CHALLENGE_ID_LEN
    &&& forall|i: int| 0 <= i < id.len() ==> is_b64url_char(#[trigger] id[i])
    &&& exists|bytes: Seq<u8>|
        bytes.len() == CHALLENGE_ID_BYTES && id == #[trigger] b64url_encoded(bytes)
}

impl IssuedChallenge {
    /// Whether this is the challenge `id` with the given answer and image,
    /// issued at `now` to `circuit_id` for `ttl` seconds.
    pub open spec fn issues(
        &self,
        id: Seq<char>,
        answer: Seq<char>,
        image: Seq<char>,
        circuit_id: Option<Seq<char>>,
        difficulty: CaptchaDifficulty,
        now: int,
        ttl: u64,
    ) -> bool {
        &&& self.challenge.challenge_id@ == id
        &&& self.challenge.image_data@ == image
        &&& self.challenge.grid_size == difficulty.spec_grid_size()
        &&& self.challenge.instructions@ == instructions_for(difficulty)
        &&& self.challenge.expected_positions@.len() == 0
        &&& self.challenge.expires_at == now + ttl
        &&& self.key@ == key_of(CAPTCHA_PREFIX@, id)
        &&& self.stored@ == (PendingChallenge {
            answer,
            circuit_id,
            difficulty,
            created_at: now,
            expires_at: now + ttl,
        })
        &&& self.ttl_secs == ttl
    }
}

impl CaptchaGenerator {
    /// Creates a generator whose challenges may be answered for
    /// `challenge_ttl` seconds.
    pub fn new(challenge_ttl: u64) -> (r: Self)
        ensures
            r.challenge_ttl == challenge_ttl,
    {
        CaptchaGenerator { challenge_ttl }
    }

    /// Issues the challenge `challenge_id` with the given answer and
    /// image, at the time `now`.
    pub fn generate_at(
        &self,
        challenge_id: String,
        answer: String,
        image_data: String,
        circuit_id: Option<String>,
        difficulty: CaptchaDifficulty,
        now: i64,
    ) -> (issued: IssuedChallenge)
        requires
            self.challenge_ttl <= MAX_TTL_SECS,
            is_clock_reading(now),
        ensures
            issued.issues(
                challenge_id@,
                answer@,
                image_data@,
                opt_text(circuit_id),
                difficulty,
                now as int,
                self.challenge_ttl,
            ),
    {
        let expires_at = now + self.challenge_ttl as i64;
        let key = make_key(CAPTCHA_PREFIX, challenge_id.as_str());
        let stored = StoredChallenge {
            answer,
            circuit_id,
            difficulty,
            created_at: now,
            expires_at,
        };
        let challenge = CaptchaChallenge {
            challenge_id,
            image_data,
            grid_size: difficulty.grid_size(),
            instructions: self.get_instructions(difficulty),
            expected_positions: Vec::new(),
            expires_at,
        };
        IssuedChallenge { challenge, key, stored, ttl_secs: self.challenge_ttl }
    }

    /// Generate a new challenge. Its answer and image come from the front
    /// of the pool, or are made on the spot where the pool is empty.
    pub fn generate(
        &self,
        pool: &mut AmmoBox,
        circuit_id: Option<String>,
        difficulty: CaptchaDifficulty,
    ) -> (issued: IssuedChallenge)
        requires
            self.challenge_ttl <= MAX_TTL_SECS,
            old(pool).wf(),
        ensures
            final(pool).wf(),
            final(pool).limit() == old(pool).limit(),
            is_challenge_id(issued.challenge.challenge_id@),
            exists|now: i64|
                is_clock_reading(now) && #[trigger] issued.issues(
                    issued.challenge.challenge_id@,
                    issued.stored.answer@,
                    issued.challenge.image_data@,
                    opt_text(circuit_id),
                    difficulty,
                    now as int,
                    self.challenge_ttl,
                ),
            old(pool).items().len() > 0 ==> {
                &&& final(pool).items() == old(pool).items().drop_first()
                &&& issued.stored.answer@ == old(pool).items()[0].answer@
                &&& issued.challenge.image_data@ == old(pool).items()[0].image_data@
                &&& final(pool).counters() == (AmmoBoxStats {
                    served: counted(old(pool).counters().served, 1),
                    ..old(pool).counters()
                })
            },
            old(pool).items().len() == 0 ==> {
                &&& final(pool).items() == old(pool).items()
                &&& is_answer(issued.stored.answer@, difficulty)
                &&& is_image_url_of(issued.challenge.image_data@, issued.stored.answer@, difficulty)
                &&& final(pool).counters() == (AmmoBoxStats {
                    pool_misses: counted(old(pool).counters().pool_misses, 1),
                    ..old(pool).counters()
                })
            },
    {
        let challenge_id = self.generate_challenge_id();
        let (answer, image_data) = match pool.pop() {
            Some(captcha) => (captcha.answer, captcha.image_data),
            None => self.create_placeholder_captcha(difficulty),
        };
        let now = unix_now();
        self.generate_at(challenge_id, answer, image_data, circuit_id, difficulty, now)
    }

    /// Generate a random challenge identifier: 16 random bytes in
    /// URL-safe base64.
    pub fn generate_challenge_id(&self) -> (id: String)
        ensures
            is_challenge_id(id@),
    {
        let bytes = random_bytes(CHALLENGE_ID_BYTES);
        encode_b64url(bytes.as_slice())
    }

    /// Makes an answer and its image on the spot. Returns the answer and
    /// the image as a data URL.
    pub fn create_placeholder_captcha(&self, difficulty: CaptchaDifficulty) -> (r: (String, String))
        ensures
            is_answer(r.0@, difficulty),
            is_image_url_of(r.1@, r.0@, difficulty),
    {
        let answer = generate_answer(difficulty);
        let svg = self.create_svg_captcha(answer.as_str(), difficulty);
        let image_data = data_url(svg.as_str());
        (answer, image_data)
    }

    /// Draws the image that shows `text` at the given difficulty.
    pub fn create_svg_captcha(&self, text: &str, difficulty: CaptchaDifficulty) -> (svg: String)
        ensures
            is_image_of(svg@, text@, difficulty),
    {
        random_svg(text, difficulty)
    }

    /// The words that tell the user what to do.
    pub fn get_instructions(&self, difficulty: CaptchaDifficulty) -> (text: String)
        ensures
            text@ == instructions_for(difficulty),
    {
        match difficulty {
            CaptchaDifficulty::Easy => String::from_str("Type the characters shown above"),
            CaptchaDifficulty::Medium => String::from_str(
                "Type the characters shown above (case insensitive)",
            ),
            CaptchaDifficulty::Hard => String::from_str("Type the characters exactly as shown"),
            CaptchaDifficulty::Extreme => String::from_str("Type the characters within 20 seconds"),
        }
    }
}

} // verus!
