use base64::Engine;
use ed25519_dalek::Signer;
use fortify::cluster::passport::{
    build_payload, decode_peer_key, judge, parse_token, PassportConfig, PassportError,
    PassportService, PassportToken,
};

fn service(node_id: &str, key: Option<Vec<u8>>) -> PassportService {
    let config = PassportConfig { node_id: node_id.to_string(), token_ttl_secs: 30, ..Default::default() };
    PassportService::new(config, key).unwrap()
}

#[test]
fn test_passport_mint_and_validate() {
    // Create two nodes
    let config1 = PassportConfig { node_id: "node-1".to_string(), token_ttl_secs: 30, ..Default::default() };
    let service1 = PassportService::new(config1, None).unwrap();

    let config2 = PassportConfig { node_id: "node-2".to_string(), token_ttl_secs: 30, ..Default::default() };
    let mut service2 = PassportService::new(config2, None).unwrap();

    // Exchange public keys
    let pubkey1 = service1.public_key_b64().unwrap();
    service2.add_peer_key("node-1", &pubkey1).unwrap();

    // Node 1 mints a passport for node 2
    let token = service1.mint("node-2", Some("circuit-123".to_string())).unwrap();

    // Node 2 validates the token
    let passport = service2.validate(&token).unwrap();
    assert_eq!(passport.target, "node-2");
    assert_eq!(passport.issuer, "node-1");
    assert!(!passport.is_expired());
}

#[test]
fn test_passport_wrong_target() {
    let config = PassportConfig { node_id: "node-1".to_string(), token_ttl_secs: 30, ..Default::default() };
    let service = PassportService::new(config, None).unwrap();

    // Mint for node-2, but try to validate on node-1
    let token = service.mint("node-2", None).unwrap();
    let result = service.validate(&token);
    assert!(result.is_err());
}

#[test]
fn default_passport_config() {
    let config = PassportConfig::default();
    assert_eq!(config.token_ttl_secs, 30);
    assert_eq!(config.node_id, "unknown");
    assert!(config.private_key_path.is_none());
    assert!(config.peer_pubkeys.is_empty());
}

// A key pair whose public key is known.
const SEED: [u8; 32] = [
    0x9d, 0x61, 0xb1, 0x9d, 0xef, 0xfd, 0x5a, 0x60, 0xba, 0x84, 0x4a, 0xf4, 0x92, 0xec, 0x2c, 0xc4, 0x44,
    0x49, 0xc5, 0x69, 0x7b, 0x32, 0x69, 0x19, 0x70, 0x3b, 0xac, 0x03, 0x1c, 0xae, 0x7f, 0x60,
];
const PUBLIC: [u8; 32] = [
    0xd7, 0x5a, 0x98, 0x01, 0x82, 0xb1, 0x0a, 0xb7, 0xd5, 0x4b, 0xfe, 0xd3, 0xc9, 0x64, 0x07, 0x3a, 0x0e,
    0xe1, 0x72, 0xf3, 0xda, 0xa6, 0x23, 0x25, 0xaf, 0x02, 0x1a, 0x68, 0xf7, 0x07, 0x51, 0x1a,
];

fn b64(bytes: &[u8]) -> String {
    base64::engine::general_purpose::URL_SAFE_NO_PAD.encode(bytes)
}

fn unb64(text: &str) -> Vec<u8> {
    base64::engine::general_purpose::URL_SAFE_NO_PAD.decode(text).unwrap()
}

#[test]
fn public_key_is_derived_from_seed() {
    let s = service("node-1", Some(SEED.to_vec()));
    assert_eq!(s.public_key_b64().unwrap(), b64(&PUBLIC));
    assert_eq!(s.node_id(), "node-1");
}

#[test]
fn private_key_must_be_32_bytes() {
    let config = PassportConfig::default();
    let r = PassportService::new(config, Some(vec![1u8; 31]));
    assert_eq!(r.err(), Some(PassportError::InvalidPrivateKeyLength));
}

#[test]
fn configured_peer_keys_are_checked() {
    let bad = |text: &str| {
        let config = PassportConfig {
            peer_pubkeys: vec![("a".to_string(), b64(&PUBLIC)), ("b".to_string(), text.to_string())],
            ..Default::default()
        };
        PassportService::new(config, Some(SEED.to_vec())).err()
    };
    assert_eq!(bad("not base64!"), Some(PassportError::InvalidKeyEncoding));
    assert_eq!(bad(&b64(&[1u8; 31])), Some(PassportError::InvalidPublicKeyLength));
    // y = 2 is the ordinate of no point of the curve.
    let mut no_point = [0u8; 32];
    no_point[0] = 2;
    assert_eq!(bad(&b64(&no_point)), Some(PassportError::InvalidPublicKey));
    assert_eq!(bad(&b64(&PUBLIC)), None);
}

#[test]
fn decode_peer_key_reads_base64() {
    assert_eq!(decode_peer_key(&b64(&PUBLIC)), Ok(PUBLIC.to_vec()));
    assert_eq!(decode_peer_key("%%%"), Err(PassportError::InvalidKeyEncoding));
    assert_eq!(decode_peer_key(""), Err(PassportError::InvalidPublicKeyLength));
}

#[test]
fn mint_at_is_the_signed_format() {
    let s = service("node-1", Some(SEED.to_vec()));
    let token = s.mint_at("node-2", None, 1_700_000_000).unwrap();
    let inner = String::from_utf8(unb64(&token)).unwrap();
    let payload = "node-2:1700000030:node-1";
    let signature = ed25519_dalek::SigningKey::from_bytes(&SEED).sign(payload.as_bytes());
    assert_eq!(inner, format!("{}:{}", payload, b64(&signature.to_bytes())));
}

#[test]
fn build_payload_exact() {
    assert_eq!(build_payload("t", 0, "i"), "t:0:i");
    assert_eq!(build_payload("node-2", u64::MAX, "node-1"), "node-2:18446744073709551615:node-1");
}

#[test]
fn parse_token_reads_four_parts() {
    let p = parse_token("a:+007:b:c").unwrap();
    assert_eq!(p.target, "a");
    assert_eq!(p.expiry, 7);
    assert_eq!(p.issuer, "b");
    assert_eq!(p.signature, "c");
    let p = parse_token(":0::").unwrap();
    assert_eq!((p.target.as_str(), p.expiry, p.issuer.as_str(), p.signature.as_str()), ("", 0, "", ""));
    assert_eq!(parse_token("a:1:b").err(), Some(PassportError::InvalidFormat));
    assert_eq!(parse_token("a:1:b:c:d").err(), Some(PassportError::InvalidFormat));
    assert_eq!(parse_token("").err(), Some(PassportError::InvalidFormat));
    assert_eq!(parse_token("a:x:b:c").err(), Some(PassportError::InvalidExpiry));
    assert_eq!(parse_token("a::b:c").err(), Some(PassportError::InvalidExpiry));
    assert_eq!(parse_token("a:-1:b:c").err(), Some(PassportError::InvalidExpiry));
    assert_eq!(parse_token("a:18446744073709551616:b:c").err(), Some(PassportError::InvalidExpiry));
    assert_eq!(parse_token("a:18446744073709551615:b:c").unwrap().expiry, u64::MAX);
}

fn pair() -> (PassportService, PassportService) {
    let n1 = service("N1", Some(SEED.to_vec()));
    let mut n2 = service("N2", None);
    n2.add_peer_key("N1", &n1.public_key_b64().unwrap()).unwrap();
    (n1, n2)
}

#[test]
fn cross_node_passport_within_ttl_then_expired() {
    let (n1, n2) = pair();
    let token = n1.mint_at("N2", Some("c".to_string()), 1000).unwrap();
    let passport = n2.validate_at(&token, 1000).unwrap();
    assert_eq!(passport.target, "N2");
    assert_eq!(passport.issuer, "N1");
    assert_eq!(passport.expiry, 1030);
    assert!(passport.circuit_id.is_none());
    assert!(n2.validate_at(&token, 1029).is_ok());
    assert_eq!(n2.validate_at(&token, 1030).err(), Some(PassportError::Expired));
    assert_eq!(n2.validate_at(&token, 1031).err(), Some(PassportError::Expired));
    assert_eq!(PassportError::Expired.message(), "Token expired");
}

#[test]
fn cross_node_passport_other_target_fails() {
    let (n1, n2) = pair();
    let token = n1.mint_at("N3", None, 1000).unwrap();
    assert_eq!(n2.validate_at(&token, 1000).err(), Some(PassportError::WrongTarget));
}

#[test]
fn cross_node_passport_unknown_issuer_fails() {
    let n1 = service("N1", Some(SEED.to_vec()));
    let n2 = service("N2", None);
    let token = n1.mint_at("N2", None, 1000).unwrap();
    assert_eq!(n2.validate_at(&token, 1000).err(), Some(PassportError::UnknownIssuer));
}

#[test]
fn cross_node_passport_wrong_key_fails() {
    let n1 = service("N1", None);
    let other = service("N1", Some(SEED.to_vec()));
    let mut n2 = service("N2", None);
    n2.add_peer_key("N1", &other.public_key_b64().unwrap()).unwrap();
    let token = n1.mint_at("N2", None, 1000).unwrap();
    assert_eq!(n2.validate_at(&token, 1000).err(), Some(PassportError::InvalidSignature));
    // The newer key replaces the older one.
    n2.add_peer_key("N1", &n1.public_key_b64().unwrap()).unwrap();
    assert!(n2.validate_at(&token, 1000).is_ok());
}

#[test]
fn cross_node_passport_any_flipped_byte_fails() {
    let (n1, n2) = pair();
    let token = n1.mint_at("N2", None, 1000).unwrap();
    assert!(n2.validate_at(&token, 1000).is_ok());
    let inner = unb64(&token);
    for i in 0..inner.len() {
        let mut bytes = inner.clone();
        bytes[i] ^= 0x01;
        let forged = b64(&bytes);
        assert!(n2.validate_at(&forged, 1000).is_err(), "byte {} of the token text", i);
    }
    let outer = token.as_bytes();
    for i in 0..outer.len() {
        let mut bytes = outer.to_vec();
        bytes[i] ^= 0x01;
        match String::from_utf8(bytes) {
            Ok(forged) => assert!(n2.validate_at(&forged, 1000).is_err(), "byte {} of the token", i),
            Err(_) => {}
        }
    }
}

#[test]
fn malformed_tokens_are_refused() {
    let (_, n2) = pair();
    assert_eq!(n2.validate_at("***", 0).err(), Some(PassportError::InvalidEncoding));
    assert_eq!(n2.validate("***").err(), Some(PassportError::InvalidEncoding));
    assert_eq!(n2.validate_at(&b64(&[0xff, 0xfe]), 0).err(), Some(PassportError::InvalidUtf8));
    assert_eq!(n2.validate_at(&b64(b"N2:5:N1"), 0).err(), Some(PassportError::InvalidFormat));
    assert_eq!(n2.validate_at(&b64(b"N2:x:N1:s"), 0).err(), Some(PassportError::InvalidExpiry));
    assert_eq!(n2.validate_at(&b64(b"N2:5:N1:***"), 0).err(), Some(PassportError::InvalidSignatureEncoding));
    assert_eq!(n2.validate_at(&b64(b"N2:5:N1:AAAA"), 0).err(), Some(PassportError::InvalidSignatureLength));
    let zeros = b64(&[0u8; 64]);
    let text = format!("N2:5:N1:{}", zeros);
    assert_eq!(n2.validate_at(&b64(text.as_bytes()), 0).err(), Some(PassportError::InvalidSignature));
}

#[test]
fn names_with_colons_do_not_round_trip() {
    let n1 = service("N:1", Some(SEED.to_vec()));
    let mut n2 = service("N2", None);
    n2.add_peer_key("N:1", &n1.public_key_b64().unwrap()).unwrap();
    let token = n1.mint_at("N2", None, 1000).unwrap();
    assert_eq!(n2.validate_at(&token, 1000).err(), Some(PassportError::InvalidFormat));
}

#[test]
fn mint_refuses_an_expiry_out_of_range() {
    let config = PassportConfig { node_id: "N1".to_string(), token_ttl_secs: 30, ..Default::default() };
    let s = PassportService::new(config, None).unwrap();
    assert_eq!(s.mint_at("N2", None, u64::MAX - 29).err(), Some(PassportError::ExpiryOutOfRange));
    assert!(s.mint_at("N2", None, u64::MAX - 30).is_ok());
}

#[test]
fn judge_checks_length_and_signature() {
    let signature = ed25519_dalek::SigningKey::from_bytes(&SEED).sign(b"message").to_bytes().to_vec();
    assert_eq!(judge(Some(signature.clone()), &PUBLIC, b"message"), Ok(()));
    assert_eq!(judge(Some(signature.clone()), &PUBLIC, b"massage"), Err(PassportError::InvalidSignature));
    assert_eq!(judge(Some(signature[..63].to_vec()), &PUBLIC, b"message"), Err(PassportError::InvalidSignatureLength));
    assert_eq!(judge(None, &PUBLIC, b"message"), Err(PassportError::InvalidSignatureEncoding));
}

#[test]
fn add_peer_key_refuses_bad_keys() {
    let mut s = service("N1", None);
    assert_eq!(s.add_peer_key("N2", "????"), Err(PassportError::InvalidKeyEncoding));
    assert_eq!(s.add_peer_key("N2", &b64(&[0u8; 16])), Err(PassportError::InvalidPublicKeyLength));
    assert_eq!(s.add_peer_key("N2", &b64(&PUBLIC)), Ok(()));
}

#[test]
fn token_is_expired_after_expiry() {
    let t = PassportToken { target: "a".to_string(), expiry: 100, issuer: "b".to_string(), circuit_id: None };
    assert!(!t.is_expired_at(99));
    assert!(t.is_expired_at(100));
    assert!(t.is_expired_at(101));
    assert!(t.is_expired());
    let t = PassportToken { expiry: u64::MAX, ..t };
    assert!(!t.is_expired());
    let t = PassportToken { expiry: 0, ..t };
    assert!(t.is_expired());
    assert!(t.is_expired_at(0));
}
