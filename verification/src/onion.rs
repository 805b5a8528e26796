//! Onion addresses of the third version: the name under which a hidden
//! service with a given Ed25519 public key is reached.
//!
//! The address is the base32 of the public key, a checksum of two bytes
//! and the version; the checksum is the beginning of the SHA3-256 hash
//! of the words `.onion checksum`, the public key and the version.

use sha3::Digest;
use vstd::prelude::*;

use crate::crypto::KEY_LENGTH;
use crate::text::push_char;

verus! {

/// The version byte of an onion address.
pub const ONION_V3_VERSION: u8 = 0x03;

/// Length of the checksum of an onion address, in bytes.
pub const CHECKSUM_LENGTH: usize = 2;

/// Length of a SHA3-256 hash, in bytes.
pub const HASH_LENGTH: usize = 32;

/// The bytes of the words `.onion checksum`.
pub open spec fn checksum_prefix() -> Seq<u8> {
    seq![
        0x2eu8,
        0x6fu8,
        0x6eu8,
        0x69u8,
        0x6fu8,
        0x6eu8,
        0x20u8,
        0x63u8,
        0x68u8,
        0x65u8,
        0x63u8,
        0x6bu8,
        0x73u8,
        0x75u8,
        0x6du8,
    ]
}

/// What `Sha3_256::digest` returns for `data`.
pub uninterp spec fn sha3_256(data: Seq<u8>) -> Seq<u8>;

/// What `base32::encode` returns for `data` with the alphabet of small
/// letters and without padding.
pub uninterp spec fn base32_lower(data: Seq<u8>) -> Seq<char>;

/// `Sha3_256::digest`: the SHA3-256 hash of `data`, 32 bytes.
#[verifier::external_body]
pub(crate) fn hash_sha3_256(data: &[u8]) -> (hash: Vec<u8>)
    ensures
        hash@ == sha3_256(data@),
        hash@.len() == HASH_LENGTH,
{
    sha3::Sha3_256::digest(data).to_vec()
}

/// `base32::encode` with the alphabet `Rfc4648Lower` and no padding: one
/// character for every five bits of `data`, begun or whole.
#[verifier::external_body]
pub(crate) fn encode_base32_lower(data: &[u8]) -> (text: String)
    ensures
        text@ == base32_lower(data@),
        text@.len() == (data@.len() * 8 + 4) / 5,
{
    base32::encode(base32::Alphabet::Rfc4648Lower { padding: false }, data)
}

/// The bytes that are hashed for the checksum of the address of the
/// public key `key`.
pub open spec fn checksum_input(key: Seq<u8>) -> Seq<u8> {
    checksum_prefix() + key + seq![ONION_V3_VERSION]
}

/// The bytes that the address of the public key `key` encodes.
pub open spec fn address_bytes(key: Seq<u8>) -> Seq<u8> {
    key + sha3_256(checksum_input(key)).take(CHECKSUM_LENGTH as int) + seq![ONION_V3_VERSION]
}

/// The onion address of the public key `key`, without `.onion`.
pub open spec fn onion_address(key: Seq<u8>) -> Seq<char> {
    base32_lower(address_bytes(key))
}

/// Compute the onion address of a public key, without `.onion`. It has 56
/// characters.
pub fn compute_onion_address(pubkey: &[u8]) -> (address: String)
    requires
        pubkey@.len() == KEY_LENGTH,
    ensures
        address@ == onion_address(pubkey@),
        address@.len() == 56,
{
    let mut input: Vec<u8> = Vec::new();
    input.push(0x2e);
    input.push(0x6f);
    input.push(0x6e);
    input.push(0x69);
    input.push(0x6f);
    input.push(0x6e);
    input.push(0x20);
    input.push(0x63);
    input.push(0x68);
    input.push(0x65);
    input.push(0x63);
    input.push(0x6b);
    input.push(0x73);
    input.push(0x75);
    input.push(0x6d);
    proof {
        assert(input@ =~= checksum_prefix());
    }
    input.extend_from_slice(pubkey);
    input.push(ONION_V3_VERSION);
    proof {
        assert(input@ =~= checksum_input(pubkey@));
    }
    let hash = hash_sha3_256(input.as_slice());
    let mut bytes: Vec<u8> = Vec::new();
    bytes.extend_from_slice(pubkey);
    bytes.push(hash[0]);
    bytes.push(hash[1]);
    bytes.push(ONION_V3_VERSION);
    proof {
        assert(bytes@ =~= address_bytes(pubkey@));
    }
    encode_base32_lower(bytes.as_slice())
}

/// The small hexadecimal digit of `d`, a number below 16.
pub open spec fn hex_char(d: int) -> char {
    if d < 10 {
        ((48 + d) as u8) as char
    } else {
        ((87 + d) as u8) as char
    }
}

/// The bytes in hexadecimal, two small digits for each.
pub open spec fn hex_of(bytes: Seq<u8>) -> Seq<char>
    decreases bytes.len(),
{
    if bytes.len() == 0 {
        Seq::empty()
    } else {
        hex_of(bytes.drop_last()).push(hex_char(bytes.last() as int / 16)).push(
            hex_char(bytes.last() as int % 16),
        )
    }
}

/// Writes the bytes in hexadecimal, two small digits for each.
pub fn hex_encode(bytes: &[u8]) -> (text: String)
    ensures
        text@ == hex_of(bytes@),
{
    let mut text = String::new();
    let mut i: usize = 0;
    proof {
        assert(bytes@.take(0) =~= Seq::<u8>::empty());
    }
    while i < bytes.len()
        invariant
            i <= bytes@.len(),
            text@ == hex_of(bytes@.take(i as int)),
        decreases bytes@.len() - i,
    {
        let high = bytes[i] / 16;
        let low = bytes[i] % 16;
        proof {
            assert(bytes@.take(i + 1).drop_last() =~= bytes@.take(i as int));
        }
        push_char(
            &mut text,
            if high < 10 {
                (48 + high) as char
            } else {
                (87 + high) as char
            },
        );
        push_char(
            &mut text,
            if low < 10 {
                (48 + low) as char
            } else {
                (87 + low) as char
            },
        );
        i += 1;
    }
    proof {
        assert(bytes@.take(i as int) =~= bytes@);
    }
    text
}

} // verus!
