//! The verified core of a human-verification gateway in front of a hidden
//! service.
//!
//! Requests reach the gateway tagged with the circuit that carries them.
//! The gateway decides whether a circuit must solve a challenge, issues a
//! short-lived passport to one that has, and tells the upstream proxy
//! which requests to let through. This crate holds what the gateway
//! decides and computes, with contracts that Verus proves; talking to
//! the network, the shared store and the disk is left to its caller.
//!
//! - [`types`], [`error`], [`constants`], [`config`]: the shared
//!   vocabulary.
//! - [`captcha`]: challenges, the pool of challenges made in advance,
//!   and the verification of answers.
//! - [`circuits`]: the reputation of circuits and the limit on their
//!   request rate.
//! - [`cluster`]: signed passports between nodes, and the health gossip.
//! - [`routes`]: what the HTTP endpoints answer.
//! - [`store`]: a model of the shared store, and the laws that hold of
//!   every run of the gateway on it.
//! - [`haproxy`], [`onion`]: the upstream proxy's runtime interface, and
//!   onion addresses.
//! - [`text`], [`codec`], [`crypto`], [`random`], [`clock`]: text, and
//!   the encodings, signatures, random numbers and time that outside
//!   crates provide.

pub mod captcha;
pub mod circuits;
pub mod clock;
pub mod cluster;
pub mod codec;
pub mod config;
pub mod constants;
pub mod crypto;
pub mod error;
pub mod haproxy;
pub mod onion;
pub mod random;
pub mod routes;
pub mod store;
pub mod text;
pub mod types;
