use ed25519_dalek::SigningKey;
use fortify::onion::{compute_onion_address, hex_encode};
use rand_core::OsRng;

#[test]
fn test_onion_address_generation() {
    let signing_key = SigningKey::generate(&mut OsRng);
    let onion = compute_onion_address(signing_key.verifying_key().as_bytes());

    // V3 onion addresses are 56 characters
    assert_eq!(onion.len(), 56);

    // Should only contain base32 characters
    assert!(onion.chars().all(|c| c.is_ascii_lowercase() || ('2'..='7').contains(&c)));
}

#[test]
fn test_onion_address_deterministic() {
    let signing_key = SigningKey::generate(&mut OsRng);
    let onion1 = compute_onion_address(signing_key.verifying_key().as_bytes());
    let onion2 = compute_onion_address(signing_key.verifying_key().as_bytes());

    assert_eq!(onion1, onion2);
}

#[test]
fn onion_address_of_a_known_key() {
    // The address decodes to the key, the checksum and the version.
    let key = [7u8; 32];
    let onion = compute_onion_address(&key);
    let bytes = base32::decode(base32::Alphabet::Rfc4648Lower { padding: false }, &onion).unwrap();
    assert_eq!(bytes.len(), 35);
    assert_eq!(&bytes[..32], &key[..]);
    assert_eq!(bytes[34], 3);
    let mut input = b".onion checksum".to_vec();
    input.extend_from_slice(&key);
    input.push(3);
    let hash = <sha3::Sha3_256 as sha3::Digest>::digest(&input);
    assert_eq!(&bytes[32..34], &hash[..2]);
    assert!(onion.ends_with('d'));
}

#[test]
fn hex_has_two_small_digits_a_byte() {
    assert_eq!(hex_encode(&[]), "");
    assert_eq!(hex_encode(&[0x00, 0x0f, 0xa0, 0xff, 0x7b]), "000fa0ff7b");
}
