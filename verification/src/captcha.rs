//! Challenges: generation, the pool of challenges made in advance, and
//! verification of answers.

use vstd::prelude::*;

use crate::types::{clone_opt, opt_text, CaptchaDifficulty};

pub mod ammo_box;
pub mod generator;
pub mod spool;
pub mod svg;
pub mod verification;

verus! {

/// A challenge that awaits its answer, as it is kept in the shared store.
#[derive(Debug)]
pub struct StoredChallenge {
    /// The expected answer.
    pub answer: String,
    /// The circuit that asked for the challenge.
    pub circuit_id: Option<String>,
    /// The difficulty of the challenge.
    pub difficulty: CaptchaDifficulty,
    /// Unix time at which the challenge was made.
    pub created_at: i64,
    /// Unix time at which the challenge expires.
    pub expires_at: i64,
}

/// A pending challenge as a mathematical value.
pub ghost struct PendingChallenge {
    pub answer: Seq<char>,
    pub circuit_id: Option<Seq<char>>,
    pub difficulty: CaptchaDifficulty,
    pub created_at: int,
    pub expires_at: int,
}

impl View for StoredChallenge {
    type V = PendingChallenge;

    open spec fn view(&self) -> PendingChallenge {
        PendingChallenge {
            answer: self.answer@,
            circuit_id: opt_text(self.circuit_id),
            difficulty: self.difficulty,
            created_at: self.created_at as int,
            expires_at: self.expires_at as int,
        }
    }
}

impl Clone for StoredChallenge {
    fn clone(&self) -> (r: Self)
        ensures
            r == *self,
    {
        StoredChallenge {
            answer: self.answer.clone(),
            circuit_id: clone_opt(&self.circuit_id),
            difficulty: self.difficulty,
            created_at: self.created_at,
            expires_at: self.expires_at,
        }
    }
}

/// The pending challenge that an optional stored challenge stands for.
pub open spec fn pending(stored: Option<StoredChallenge>) -> Option<PendingChallenge> {
    match stored {
        Some(c) => Some(c@),
        None => None,
    }
}

} // verus!
