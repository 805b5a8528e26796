//! Cross-node passports: short-lived tokens, signed with Ed25519, that let
//! a client which one node has verified pass another node unchallenged.
//!
//! A token is the unpadded URL-safe base64 of the text
//! `target:expiry:issuer:signature`, where `signature` is the base64 of
//! the issuer's signature over `target:expiry:issuer`.

use vstd::prelude::*;
use vstd::utf8::{decode_utf8, valid_utf8};

use crate::clock::system_secs;
use crate::codec::{b64url_decoded, b64url_encoded, decode_b64url, encode_b64url, is_b64url_char};
use crate::crypto::{
    accepts, check_public_key, derive_public_key, generate_seed, is_public_key, public_key_of,
    sign, signature_of, verify, KEY_LENGTH, SIGNATURE_LENGTH,
};
use crate::text::{
    chars_of, decimal, free_of, lemma_parse_decimal, lemma_split_concat, lemma_split_len,
    lemma_split_whole, parse_bounded, parse_unsigned, push_decimal, split, split_chars, str_eq,
    string_from_utf8, string_of, texts, utf8,
};

verus! {

/// Why a passport was not issued or not accepted.
#[derive(Debug, Clone, Copy, PartialEq, Eq, Structural)]
pub enum PassportError {
    /// The private key is not 32 bytes long.
    InvalidPrivateKeyLength,
    /// A public key is no unpadded URL-safe base64.
    InvalidKeyEncoding,
    /// A public key is not 32 bytes long.
    InvalidPublicKeyLength,
    /// A public key is not the encoding of a curve point.
    InvalidPublicKey,
    /// The expiry time does not fit in 64 bits.
    ExpiryOutOfRange,
    /// The token is no unpadded URL-safe base64.
    InvalidEncoding,
    /// The decoded token is no UTF-8 text.
    InvalidUtf8,
    /// The decoded token does not have four parts.
    InvalidFormat,
    /// The expiry is no decimal number of 64 bits.
    InvalidExpiry,
    /// The token was issued for another node.
    WrongTarget,
    /// The token has expired.
    Expired,
    /// No public key is known for the issuer.
    UnknownIssuer,
    /// The signature is no unpadded URL-safe base64.
    InvalidSignatureEncoding,
    /// The signature is not 64 bytes long.
    InvalidSignatureLength,
    /// The issuer's key does not accept the signature.
    InvalidSignature,
}

impl PassportError {
    /// A short description of the error.
    pub open spec fn text(&self) -> Seq<char> {
        match self {
            PassportError::InvalidPrivateKeyLength => "Invalid private key length (expected 32 bytes)"@,
            PassportError::InvalidKeyEncoding => "Failed to decode public key"@,
            PassportError::InvalidPublicKeyLength => "Invalid public key length"@,
            PassportError::InvalidPublicKey => "Invalid public key"@,
            PassportError::ExpiryOutOfRange => "Expiry out of range"@,
            PassportError::InvalidEncoding => "Invalid token encoding"@,
            PassportError::InvalidUtf8 => "Invalid token UTF-8"@,
            PassportError::InvalidFormat => "Invalid token format (expected 4 parts)"@,
            PassportError::InvalidExpiry => "Invalid expiry timestamp"@,
            PassportError::WrongTarget => "Token not for this node"@,
            PassportError::Expired => "Token expired"@,
            PassportError::UnknownIssuer => "Unknown issuer"@,
            PassportError::InvalidSignatureEncoding => "Invalid signature encoding"@,
            PassportError::InvalidSignatureLength => "Invalid signature length"@,
            PassportError::InvalidSignature => "Invalid signature"@,
        }
    }

    /// A short description of the error.
    pub fn message(&self) -> (m: &'static str)
        ensures
            m@ == self.text(),
    {
        match self {
            PassportError::InvalidPrivateKeyLength => "Invalid private key length (expected 32 bytes)",
            PassportError::InvalidKeyEncoding => "Failed to decode public key",
            PassportError::InvalidPublicKeyLength => "Invalid public key length",
            PassportError::InvalidPublicKey => "Invalid public key",
            PassportError::ExpiryOutOfRange => "Expiry out of range",
            PassportError::InvalidEncoding => "Invalid token encoding",
            PassportError::InvalidUtf8 => "Invalid token UTF-8",
            PassportError::InvalidFormat => "Invalid token format (expected 4 parts)",
            PassportError::InvalidExpiry => "Invalid expiry timestamp",
            PassportError::WrongTarget => "Token not for this node",
            PassportError::Expired => "Token expired",
            PassportError::UnknownIssuer => "Unknown issuer",
            PassportError::InvalidSignatureEncoding => "Invalid signature encoding",
            PassportError::InvalidSignatureLength => "Invalid signature length",
            PassportError::InvalidSignature => "Invalid signature",
        }
    }
}

/// Settings of the passport service.
#[derive(Debug)]
pub struct PassportConfig {
    /// How long a token is valid, in seconds.
    pub token_ttl_secs: u64,
    /// The name of this node.
    pub node_id: String,
    /// Where the private key of this node is kept, if anywhere.
    pub private_key_path: Option<String>,
    /// Public keys of peers: node name, then the key in base64.
    pub peer_pubkeys: Vec<(String, String)>,
}

impl Default for PassportConfig {
    fn default() -> (r: Self)
        ensures
            r.token_ttl_secs == 30,
            r.node_id@ == "unknown"@,
            r.private_key_path is None,
            r.peer_pubkeys@.len() == 0,
    {
        PassportConfig {
            token_ttl_secs: 30,
            node_id: String::from_str("unknown"),
            private_key_path: None,
            peer_pubkeys: Vec::new(),
        }
    }
}

/// What a validated passport states.
#[derive(Debug)]
pub struct PassportToken {
    /// The node that the passport is valid for.
    pub target: String,
    /// Unix time, in seconds, at which it expires.
    pub expiry: u64,
    /// The node that issued it.
    pub issuer: String,
    /// The circuit that it was issued for; not carried in the token.
    pub circuit_id: Option<String>,
}

/// The claims of a passport as a mathematical value.
pub ghost struct Claims {
    pub target: Seq<char>,
    pub expiry: nat,
    pub issuer: Seq<char>,
    pub circuit_id: Option<Seq<char>>,
}

impl View for PassportToken {
    type V = Claims;

    open spec fn view(&self) -> Claims {
        Claims {
            target: self.target@,
            expiry: self.expiry as nat,
            issuer: self.issuer@,
            circuit_id: match self.circuit_id {
                Some(c) => Some(c@),
                None => None,
            },
        }
    }
}

/// Whether a passport that expires at `expiry` has expired at `now`: it
/// is live only while its expiry lies ahead.
pub open spec fn expired_at(expiry: u64, now: u64) -> bool {
    expiry <= now
}

impl PassportToken {
    /// Whether the passport has expired at `now`.
    pub fn is_expired_at(&self, now: u64) -> (r: bool)
        ensures
            r == expired_at(self.expiry, now),
    {
        self.expiry <= now
    }

    /// Check if the token has expired.
    pub fn is_expired(&self) -> (r: bool)
        ensures
            exists|now: u64| r == #[trigger] expired_at(self.expiry, now),
            self.expiry == 0 ==> r,
    {
        let now = system_secs();
        self.is_expired_at(now)
    }
}

/// The signed part of a token.
pub open spec fn payload_text(target: Seq<char>, expiry: nat, issuer: Seq<char>) -> Seq<char> {
    target + seq![':'] + decimal(expiry) + seq![':'] + issuer
}

/// The text of a token before its outer encoding: the payload and the
/// base64 of the signature that `seed` gives it.
pub open spec fn token_text(
    target: Seq<char>,
    expiry: nat,
    issuer: Seq<char>,
    seed: Seq<u8>,
) -> Seq<char> {
    let payload = payload_text(target, expiry, issuer);
    payload + seq![':'] + b64url_encoded(signature_of(seed, utf8(payload)))
}

/// The token that the holder of `seed` issues.
pub open spec fn minted_token(
    target: Seq<char>,
    expiry: nat,
    issuer: Seq<char>,
    seed: Seq<u8>,
) -> Seq<char> {
    b64url_encoded(utf8(token_text(target, expiry, issuer, seed)))
}

/// The four parts of a token's text.
pub ghost struct ParsedToken {
    pub target: Seq<char>,
    pub expiry: nat,
    pub issuer: Seq<char>,
    pub signature: Seq<char>,
}

/// Reads the text of a token: four parts between colons, the second an
/// unsigned decimal of 64 bits.
pub open spec fn parse_token_text(text: Seq<char>) -> Result<ParsedToken, PassportError> {
    let parts = split(text, ':');
    if parts.len() != 4 {
        Err(PassportError::InvalidFormat)
    } else {
        match parse_unsigned(parts[1], u64::MAX as nat) {
            None => Err(PassportError::InvalidExpiry),
            Some(expiry) => Ok(
                ParsedToken { target: parts[0], expiry, issuer: parts[2], signature: parts[3] },
            ),
        }
    }
}

/// Decides on a parsed token before its signature is looked at: it must
/// name this node, expire after `now`, and come from a known issuer.
pub open spec fn screen_claims(
    node_id: Seq<char>,
    peers: Map<Seq<char>, Seq<u8>>,
    target: Seq<char>,
    expiry: nat,
    issuer: Seq<char>,
    now: nat,
) -> Result<Seq<u8>, PassportError> {
    if target != node_id {
        Err(PassportError::WrongTarget)
    } else if expiry <= now {
        Err(PassportError::Expired)
    } else if !peers.dom().contains(issuer) {
        Err(PassportError::UnknownIssuer)
    } else {
        Ok(peers[issuer])
    }
}

/// Decides on a decoded signature: it must be 64 bytes that `key` accepts
/// for `message`.
pub open spec fn judge_signature(
    signature: Option<Seq<u8>>,
    key: Seq<u8>,
    message: Seq<u8>,
) -> Result<(), PassportError> {
    match signature {
        None => Err(PassportError::InvalidSignatureEncoding),
        Some(sig) => if sig.len() != SIGNATURE_LENGTH {
            Err(PassportError::InvalidSignatureLength)
        } else if !(is_public_key(key) && accepts(key, message, sig)) {
            Err(PassportError::InvalidSignature)
        } else {
            Ok(())
        },
    }
}

/// What validation of `token` yields on the node `node_id`, which knows
/// the public keys `peers`, at the time `now`.
pub open spec fn check_token(
    node_id: Seq<char>,
    peers: Map<Seq<char>, Seq<u8>>,
    token: Seq<char>,
    now: nat,
) -> Result<Claims, PassportError> {
    match b64url_decoded(token) {
        None => Err(PassportError::InvalidEncoding),
        Some(bytes) => if !valid_utf8(bytes) {
            Err(PassportError::InvalidUtf8)
        } else {
            match parse_token_text(decode_utf8(bytes)) {
                Err(e) => Err(e),
                Ok(p) => match screen_claims(node_id, peers, p.target, p.expiry, p.issuer, now) {
                    Err(e) => Err(e),
                    Ok(key) => match judge_signature(
                        b64url_decoded(p.signature),
                        key,
                        utf8(payload_text(p.target, p.expiry, p.issuer)),
                    ) {
                        Err(e) => Err(e),
                        Ok(_) => Ok(
                            Claims {
                                target: p.target,
                                expiry: p.expiry,
                                issuer: p.issuer,
                                circuit_id: None,
                            },
                        ),
                    },
                },
            }
        },
    }
}

/// The public key that a peer's configured text stands for.
pub open spec fn peer_key_of(text: Seq<char>) -> Result<Seq<u8>, PassportError> {
    match b64url_decoded(text) {
        None => Err(PassportError::InvalidKeyEncoding),
        Some(key) => if key.len() != KEY_LENGTH {
            Err(PassportError::InvalidPublicKeyLength)
        } else if !is_public_key(key) {
            Err(PassportError::InvalidPublicKey)
        } else {
            Ok(key)
        },
    }
}

/// The parts of a token's text, as they are handed on.
#[derive(Debug)]
pub struct TokenParts {
    /// The node that the token names.
    pub target: String,
    /// The expiry that the token states.
    pub expiry: u64,
    /// The node that the token says issued it.
    pub issuer: String,
    /// The signature, still in base64.
    pub signature: String,
}

impl View for TokenParts {
    type V = ParsedToken;

    open spec fn view(&self) -> ParsedToken {
        ParsedToken {
            target: self.target@,
            expiry: self.expiry as nat,
            issuer: self.issuer@,
            signature: self.signature@,
        }
    }
}

/// Reads the text of a decoded token.
pub fn parse_token(text: &str) -> (r: Result<TokenParts, PassportError>)
    ensures
        match r {
            Ok(p) => parse_token_text(text@) == Ok::<ParsedToken, PassportError>(p@),
            Err(e) => parse_token_text(text@) == Err::<ParsedToken, PassportError>(e),
        },
{
    let chars = chars_of(text);
    let parts = split_chars(chars.as_slice(), ':');
    if parts.len() != 4 {
        return Err(PassportError::InvalidFormat);
    }
    proof {
        assert(texts(parts@)[0] == parts@[0]@);
        assert(texts(parts@)[1] == parts@[1]@);
        assert(texts(parts@)[2] == parts@[2]@);
        assert(texts(parts@)[3] == parts@[3]@);
    }
    match parse_bounded(parts[1].as_slice(), u64::MAX) {
        None => Err(PassportError::InvalidExpiry),
        Some(expiry) => Ok(
            TokenParts {
                target: string_of(parts[0].as_slice()),
                expiry,
                issuer: string_of(parts[2].as_slice()),
                signature: string_of(parts[3].as_slice()),
            },
        ),
    }
}

/// Builds the signed part of a token.
pub fn build_payload(target: &str, expiry: u64, issuer: &str) -> (payload: String)
    ensures
        payload@ == payload_text(target@, expiry as nat, issuer@),
{
    let mut digits: Vec<char> = Vec::new();
    push_decimal(&mut digits, expiry);
    let number = string_of(digits.as_slice());
    let mut payload = String::from_str(target);
    proof {
        reveal_strlit(":");
        assert(":"@ =~= seq![':']);
        assert(Seq::<char>::empty() + decimal(expiry as nat) =~= decimal(expiry as nat));
    }
    payload.append(":");
    payload.append(number.as_str());
    payload.append(":");
    payload.append(issuer);
    payload
}

/// Reads a peer's public key from its base64 text.
pub fn decode_peer_key(text: &str) -> (r: Result<Vec<u8>, PassportError>)
    ensures
        match r {
            Ok(key) => peer_key_of(text@) == Ok::<Seq<u8>, PassportError>(key@),
            Err(e) => peer_key_of(text@) == Err::<Seq<u8>, PassportError>(e),
        },
{
    match decode_b64url(text) {
        None => Err(PassportError::InvalidKeyEncoding),
        Some(key) => {
            if key.len() != KEY_LENGTH {
                Err(PassportError::InvalidPublicKeyLength)
            } else if !check_public_key(key.as_slice()) {
                Err(PassportError::InvalidPublicKey)
            } else {
                Ok(key)
            }
        },
    }
}

/// The public key of one peer.
#[derive(Debug)]
pub struct PeerKey {
    /// The peer's node name.
    pub node_id: String,
    /// The peer's public key, 32 bytes.
    pub key: Vec<u8>,
}

/// The keys that a list of peers gives: for each name, the key of the
/// last entry that carries it.
pub open spec fn peer_map(list: Seq<PeerKey>) -> Map<Seq<char>, Seq<u8>>
    decreases list.len(),
{
    if list.len() == 0 {
        Map::empty()
    } else {
        peer_map(list.drop_last()).insert(list.last().node_id@, list.last().key@)
    }
}

/// The keys that a configured list of peers gives, or the error of the
/// first entry whose key cannot be read.
pub open spec fn load_peers(entries: Seq<(String, String)>) -> Result<
    Map<Seq<char>, Seq<u8>>,
    PassportError,
>
    decreases entries.len(),
{
    if entries.len() == 0 {
        Ok(Map::empty())
    } else {
        match load_peers(entries.drop_last()) {
            Err(e) => Err(e),
            Ok(m) => match peer_key_of(entries.last().1@) {
                Err(e) => Err(e),
                Ok(key) => Ok(m.insert(entries.last().0@, key)),
            },
        }
    }
}

/// An error in a beginning of the list is the error of the whole list.
proof fn lemma_load_peers_fails(entries: Seq<(String, String)>, k: int)
    requires
        0 <= k <= entries.len(),
        load_peers(entries.take(k)) is Err,
    ensures
        load_peers(entries) == load_peers(entries.take(k)),
    decreases entries.len(),
{
    if k == entries.len() {
        assert(entries.take(k) =~= entries);
    } else {
        assert(entries.drop_last().take(k) =~= entries.take(k));
        lemma_load_peers_fails(entries.drop_last(), k);
    }
}

/// The last entry that carries a name gives the name's key.
proof fn lemma_peer_map_find(list: Seq<PeerKey>, id: Seq<char>, i: int)
    requires
        0 <= i < list.len(),
        list[i].node_id@ == id,
        forall|j: int| i < j < list.len() ==> list[j].node_id@ != id,
    ensures
        peer_map(list).dom().contains(id),
        peer_map(list)[id] == list[i].key@,
    decreases list.len(),
{
    if i < list.len() - 1 {
        lemma_peer_map_find(list.drop_last(), id, i);
    }
}

/// A name that no entry carries has no key.
proof fn lemma_peer_map_absent(list: Seq<PeerKey>, id: Seq<char>)
    requires
        forall|j: int| 0 <= j < list.len() ==> list[j].node_id@ != id,
    ensures
        !peer_map(list).dom().contains(id),
    decreases list.len(),
{
    if list.len() > 0 {
        lemma_peer_map_absent(list.drop_last(), id);
    }
}

/// Replacing the last entry that carries a name sets the name's key.
proof fn lemma_peer_map_update(list: Seq<PeerKey>, i: int, entry: PeerKey)
    requires
        0 <= i < list.len(),
        list[i].node_id@ == entry.node_id@,
        forall|j: int| i < j < list.len() ==> list[j].node_id@ != entry.node_id@,
    ensures
        peer_map(list.update(i, entry)) == peer_map(list).insert(entry.node_id@, entry.key@),
    decreases list.len(),
{
    let updated = list.update(i, entry);
    if i == list.len() - 1 {
        assert(updated.drop_last() =~= list.drop_last());
        assert(peer_map(updated) =~= peer_map(list).insert(entry.node_id@, entry.key@));
    } else {
        assert(updated.drop_last() =~= list.drop_last().update(i, entry));
        lemma_peer_map_update(list.drop_last(), i, entry);
        assert(peer_map(updated) =~= peer_map(list).insert(entry.node_id@, entry.key@));
    }
}

/// Whether a list of peers is well kept: no name occurs twice, and every
/// key has the length of a key.
pub open spec fn well_kept(list: Seq<PeerKey>) -> bool {
    &&& forall|i: int, j: int|
        0 <= i < j < list.len() ==> list[i].node_id@ != list[j].node_id@
    &&& forall|j: int| 0 <= j < list.len() ==> list[j].key@.len() == KEY_LENGTH
}

/// The position of the entry of `list` that carries the name `id`.
fn find_peer(list: &Vec<PeerKey>, id: &str) -> (r: Option<usize>)
    ensures
        match r {
            Some(i) => i < list@.len() && list@[i as int].node_id@ == id@ && peer_map(
                list@,
            ).dom().contains(id@) && peer_map(list@)[id@] == list@[i as int].key@ && forall|j: int|
                i < j < list@.len() ==> list@[j].node_id@ != id@,
            None => !peer_map(list@).dom().contains(id@) && forall|j: int|
                0 <= j < list@.len() ==> list@[j].node_id@ != id@,
        },
{
    let mut i: usize = list.len();
    while i > 0
        invariant
            i <= list@.len(),
            forall|j: int| i <= j < list@.len() ==> list@[j].node_id@ != id@,
        decreases i,
    {
        i -= 1;
        if str_eq(list[i].node_id.as_str(), id) {
            proof {
                lemma_peer_map_find(list@, id@, i as int);
            }
            return Some(i);
        }
    }
    proof {
        lemma_peer_map_absent(list@, id@);
    }
    None
}

/// Records `key` as the public key of the peer `node_id`.
fn set_peer(list: &mut Vec<PeerKey>, node_id: &str, key: Vec<u8>)
    requires
        key@.len() == KEY_LENGTH,
        well_kept(old(list)@),
    ensures
        peer_map(final(list)@) == peer_map(old(list)@).insert(node_id@, key@),
        well_kept(final(list)@),
{
    let entry = PeerKey { node_id: String::from_str(node_id), key };
    match find_peer(list, node_id) {
        Some(i) => {
            proof {
                lemma_peer_map_update(list@, i as int, entry);
            }
            list.set(i, entry);
        },
        None => {
            list.push(entry);
            proof {
                assert(list@.drop_last() =~= old(list)@);
            }
        },
    }
}

/// Whether a token for `target`, expiring at `expiry` and issued by
/// `issuer`, is treated as it should be wherever it is shown: refused on
/// every node but `target`, refused from `expiry` on, refused where the
/// issuer is unknown, and accepted on `target` before `expiry` where the
/// issuer is known by the public key `key`. A token for or from a node
/// with a colon in its name is refused everywhere as malformed, since the
/// colon separates the parts of a token.
pub open spec fn token_honoured(
    token: Seq<char>,
    target: Seq<char>,
    expiry: nat,
    issuer: Seq<char>,
    key: Seq<u8>,
) -> bool {
    forall|node: Seq<char>, peers: Map<Seq<char>, Seq<u8>>, now: nat|
        {
            let r = #[trigger] check_token(node, peers, token, now);
            if free_of(target, ':') && free_of(issuer, ':') {
                &&& node != target ==> r == Err::<Claims, PassportError>(
                    PassportError::WrongTarget,
                )
                &&& node == target && expiry <= now ==> r == Err::<Claims, PassportError>(
                    PassportError::Expired,
                )
                &&& node == target && now < expiry && !peers.dom().contains(issuer) ==> r == Err::<
                    Claims,
                    PassportError,
                >(PassportError::UnknownIssuer)
                &&& node == target && now < expiry && peers.dom().contains(issuer)
                    && peers[issuer] == key ==> r == Ok::<Claims, PassportError>(
                    Claims { target, expiry, issuer, circuit_id: None },
                )
            } else {
                r == Err::<Claims, PassportError>(PassportError::InvalidFormat)
            }
        }
}

/// A token made as `mint` makes it is honoured, given what the codec and
/// the signature scheme promise of the values that went into it.
proof fn lemma_minted_honoured(
    target: Seq<char>,
    expiry: nat,
    issuer: Seq<char>,
    key: Seq<u8>,
    signature: Seq<u8>,
    signature_text: Seq<char>,
    token: Seq<char>,
)
    requires
        expiry <= u64::MAX,
        signature.len() == SIGNATURE_LENGTH,
        is_public_key(key),
        accepts(key, utf8(payload_text(target, expiry, issuer)), signature),
        b64url_decoded(signature_text) == Some(signature),
        forall|i: int| 0 <= i < signature_text.len() ==> is_b64url_char(#[trigger] signature_text[i]),
        b64url_decoded(token) == Some(
            utf8(payload_text(target, expiry, issuer) + seq![':'] + signature_text),
        ),
    ensures
        token_honoured(token, target, expiry, issuer, key),
{
    let payload = payload_text(target, expiry, issuer);
    let inner = payload + seq![':'] + signature_text;
    vstd::utf8::encode_utf8_valid_utf8(inner);
    vstd::utf8::encode_utf8_decode_utf8(inner);
    lemma_parse_decimal(expiry, u64::MAX as nat);
    assert(free_of(signature_text, ':')) by {
        assert forall|i: int| 0 <= i < signature_text.len() implies signature_text[i] != ':' by {
            assert(is_b64url_char(signature_text[i]));
        }
    }
    let number = decimal(expiry);
    let front = target + seq![':'] + number;
    assert(inner =~= (front + seq![':'] + issuer) + seq![':'] + signature_text);
    lemma_split_concat(front + seq![':'] + issuer, signature_text, ':');
    lemma_split_concat(front, issuer, ':');
    lemma_split_concat(target, number, ':');
    lemma_split_len(target, ':');
    lemma_split_len(issuer, ':');
    lemma_split_whole(number, ':');
    lemma_split_whole(signature_text, ':');
    let parts = split(inner, ':');
    assert(parts =~= split(target, ':') + seq![number] + split(issuer, ':') + seq![
        signature_text,
    ]);
    if free_of(target, ':') && free_of(issuer, ':') {
        lemma_split_whole(target, ':');
        lemma_split_whole(issuer, ':');
        assert(parts =~= seq![target, number, issuer, signature_text]);
        assert(parse_token_text(inner) == Ok::<ParsedToken, PassportError>(
            ParsedToken { target, expiry, issuer, signature: signature_text },
        ));
    } else {
        assert(parts.len() != 4);
        assert(parse_token_text(inner) == Err::<ParsedToken, PassportError>(
            PassportError::InvalidFormat,
        ));
    }
}

/// Issues and validates cross-node passports.
pub struct PassportService {
    config: PassportConfig,
    signing_key: Vec<u8>,
    verifying_key: Vec<u8>,
    peer_keys: Vec<PeerKey>,
}

/// What `mint` returns at the time `now`: the token, or the reason why
/// there is none.
pub open spec fn mint_outcome(
    seed: Seq<u8>,
    target: Seq<char>,
    issuer: Seq<char>,
    ttl: u64,
    now: u64,
) -> Result<Seq<char>, PassportError> {
    if now + ttl > u64::MAX {
        Err(PassportError::ExpiryOutOfRange)
    } else {
        Ok(minted_token(target, (now + ttl) as nat, issuer, seed))
    }
}

/// A validation outcome as a mathematical value.
pub open spec fn outcome_view(r: Result<PassportToken, PassportError>) -> Result<
    Claims,
    PassportError,
> {
    match r {
        Ok(t) => Ok(t@),
        Err(e) => Err(e),
    }
}

impl PassportService {
    #[verifier::type_invariant]
    closed spec fn well_formed(self) -> bool {
        &&& self.signing_key@.len() == KEY_LENGTH
        &&& self.verifying_key@ == public_key_of(self.signing_key@)
        &&& self.verifying_key@.len() == KEY_LENGTH
        &&& is_public_key(self.verifying_key@)
        &&& well_kept(self.peer_keys@)
    }

    /// The name of this node.
    pub closed spec fn node_name(&self) -> Seq<char> {
        self.config.node_id@
    }

    /// How long the tokens of this node are valid, in seconds.
    pub closed spec fn token_ttl(&self) -> u64 {
        self.config.token_ttl_secs
    }

    /// The seed of this node's signing key.
    pub closed spec fn seed(&self) -> Seq<u8> {
        self.signing_key@
    }

    /// The public key of this node.
    pub closed spec fn public_key(&self) -> Seq<u8> {
        self.verifying_key@
    }

    /// The public keys of the peers that this node knows, by node name.
    pub closed spec fn peers(&self) -> Map<Seq<char>, Seq<u8>> {
        peer_map(self.peer_keys@)
    }

    /// Creates a passport service. `private_key` holds the contents of the
    /// configured private key file; where there is none, the service signs
    /// with a fresh key that is lost when it stops.
    pub fn new(config: PassportConfig, private_key: Option<Vec<u8>>) -> (r: Result<
        Self,
        PassportError,
    >)
        ensures
            match r {
                Ok(service) => {
                    &&& (private_key matches Some(k) ==> service.seed() == k@)
                    &&& service.seed().len() == KEY_LENGTH
                    &&& service.public_key() == public_key_of(service.seed())
                    &&& service.node_name() == config.node_id@
                    &&& service.token_ttl() == config.token_ttl_secs
                    &&& load_peers(config.peer_pubkeys@) == Ok::<
                        Map<Seq<char>, Seq<u8>>,
                        PassportError,
                    >(service.peers())
                },
                Err(e) => if private_key is Some && private_key->0@.len() != KEY_LENGTH {
                    e == PassportError::InvalidPrivateKeyLength
                } else {
                    load_peers(config.peer_pubkeys@) == Err::<
                        Map<Seq<char>, Seq<u8>>,
                        PassportError,
                    >(e)
                },
            },
    {
        let seed = match private_key {
            Some(bytes) => {
                if bytes.len() != KEY_LENGTH {
                    return Err(PassportError::InvalidPrivateKeyLength);
                }
                bytes
            },
            None => generate_seed(),
        };
        let public = derive_public_key(seed.as_slice());
        let mut peer_keys: Vec<PeerKey> = Vec::new();
        let mut i: usize = 0;
        proof {
            assert(config.peer_pubkeys@.take(0) =~= Seq::<(String, String)>::empty());
        }
        while i < config.peer_pubkeys.len()
            invariant
                i <= config.peer_pubkeys@.len(),
                private_key matches Some(k) ==> k@.len() == KEY_LENGTH,
                load_peers(config.peer_pubkeys@.take(i as int)) == Ok::<
                    Map<Seq<char>, Seq<u8>>,
                    PassportError,
                >(peer_map(peer_keys@)),
                well_kept(peer_keys@),
            decreases config.peer_pubkeys@.len() - i,
        {
            proof {
                assert(config.peer_pubkeys@.take(i + 1).drop_last() =~= config.peer_pubkeys@.take(
                    i as int,
                ));
            }
            match decode_peer_key(config.peer_pubkeys[i].1.as_str()) {
                Err(e) => {
                    proof {
                        lemma_load_peers_fails(config.peer_pubkeys@, i + 1);
                    }
                    return Err(e);
                },
                Ok(key) => {
                    set_peer(&mut peer_keys, config.peer_pubkeys[i].0.as_str(), key);
                },
            }
            i += 1;
        }
        proof {
            assert(config.peer_pubkeys@.take(i as int) =~= config.peer_pubkeys@);
        }
        Ok(PassportService { config, signing_key: seed, verifying_key: public, peer_keys })
    }

    /// Get our node ID.
    pub fn node_id(&self) -> (id: &str)
        ensures
            id@ == self.node_name(),
    {
        self.config.node_id.as_str()
    }

    /// Get our public key as base64.
    pub fn public_key_b64(&self) -> (r: Option<String>)
        ensures
            r matches Some(text) && text@ == b64url_encoded(self.public_key()) && peer_key_of(text@)
                == Ok::<Seq<u8>, PassportError>(self.public_key()),
    {
        proof {
            use_type_invariant(self);
        }
        Some(encode_b64url(self.verifying_key.as_slice()))
    }

    /// Adds or replaces a peer's public key.
    pub fn add_peer_key(&mut self, node_id: &str, pubkey_b64: &str) -> (r: Result<
        (),
        PassportError,
    >)
        ensures
            final(self).node_name() == old(self).node_name(),
            final(self).token_ttl() == old(self).token_ttl(),
            final(self).seed() == old(self).seed(),
            final(self).public_key() == old(self).public_key(),
            match r {
                Ok(_) => peer_key_of(pubkey_b64@) is Ok && final(self).peers() == old(self).peers().insert(node_id@, peer_key_of(pubkey_b64@)->Ok_0),
                Err(e) => peer_key_of(pubkey_b64@) == Err::<Seq<u8>, PassportError>(e) && final(self).peers() == old(self).peers(),
            },
    {
        proof {
            use_type_invariant(&*self);
        }
        match decode_peer_key(pubkey_b64) {
            Err(e) => Err(e),
            Ok(key) => {
                let mut list: Vec<PeerKey> = Vec::new();
                std::mem::swap(&mut self.peer_keys, &mut list);
                set_peer(&mut list, node_id, key);
                self.peer_keys = list;
                Ok(())
            },
        }
    }
}

impl PassportService {
    /// Decides on the claims of a token before its signature is looked
    /// at, and hands back the issuer's public key.
    pub fn screen(&self, parts: &TokenParts, now: u64) -> (r: Result<Vec<u8>, PassportError>)
        ensures
            match r {
                Ok(key) => key@.len() == KEY_LENGTH && screen_claims(
                    self.node_name(),
                    self.peers(),
                    parts@.target,
                    parts@.expiry,
                    parts@.issuer,
                    now as nat,
                ) == Ok::<Seq<u8>, PassportError>(key@),
                Err(e) => screen_claims(
                    self.node_name(),
                    self.peers(),
                    parts@.target,
                    parts@.expiry,
                    parts@.issuer,
                    now as nat,
                ) == Err::<Seq<u8>, PassportError>(e),
            },
    {
        proof {
            use_type_invariant(self);
        }
        if !str_eq(parts.target.as_str(), self.config.node_id.as_str()) {
            return Err(PassportError::WrongTarget);
        }
        if parts.expiry <= now {
            return Err(PassportError::Expired);
        }
        match find_peer(&self.peer_keys, parts.issuer.as_str()) {
            None => Err(PassportError::UnknownIssuer),
            Some(i) => Ok(self.peer_keys[i].key.clone()),
        }
    }

    /// Validates `token` as it is shown at the time `now`.
    pub fn validate_at(&self, token: &str, now: u64) -> (r: Result<PassportToken, PassportError>)
        ensures
            outcome_view(r) == check_token(self.node_name(), self.peers(), token@, now as nat),
            r matches Ok(t) ==> t.circuit_id is None && !expired_at(t.expiry, now),
    {
        let bytes = match decode_b64url(token) {
            Some(bytes) => bytes,
            None => {
                return Err(PassportError::InvalidEncoding);
            },
        };
        let text = match string_from_utf8(bytes) {
            Some(text) => text,
            None => {
                return Err(PassportError::InvalidUtf8);
            },
        };
        let parts = match parse_token(text.as_str()) {
            Ok(parts) => parts,
            Err(e) => {
                return Err(e);
            },
        };
        let key = match self.screen(&parts, now) {
            Ok(key) => key,
            Err(e) => {
                return Err(e);
            },
        };
        let payload = build_payload(parts.target.as_str(), parts.expiry, parts.issuer.as_str());
        let signature = decode_b64url(parts.signature.as_str());
        match judge(signature, key.as_slice(), payload.as_str().as_bytes()) {
            Err(e) => Err(e),
            Ok(_) => Ok(
                PassportToken {
                    target: parts.target,
                    expiry: parts.expiry,
                    issuer: parts.issuer,
                    circuit_id: None,
                },
            ),
        }
    }

    /// Validate a passport token presented by a client.
    pub fn validate(&self, token: &str) -> (r: Result<PassportToken, PassportError>)
        ensures
            exists|now: u64|
                outcome_view(r) == #[trigger] check_token(
                    self.node_name(),
                    self.peers(),
                    token@,
                    now as nat,
                ),
            r matches Ok(t) ==> t.circuit_id is None,
            b64url_decoded(token@) is None ==> r == Err::<PassportToken, PassportError>(
                PassportError::InvalidEncoding,
            ),
    {
        let now = system_secs();
        let r = self.validate_at(token, now);
        proof {
            assert(outcome_view(r) == check_token(
                self.node_name(),
                self.peers(),
                token@,
                now as nat,
            ));
        }
        r
    }

    /// Issues a token for `target` at the time `now`.
    pub fn mint_at(&self, target: &str, circuit_id: Option<String>, now: u64) -> (r: Result<
        String,
        PassportError,
    >)
        ensures
            match r {
                Ok(token) => mint_outcome(
                    self.seed(),
                    target@,
                    self.node_name(),
                    self.token_ttl(),
                    now,
                ) == Ok::<Seq<char>, PassportError>(token@),
                Err(e) => mint_outcome(
                    self.seed(),
                    target@,
                    self.node_name(),
                    self.token_ttl(),
                    now,
                ) == Err::<Seq<char>, PassportError>(e),
            },
            r matches Ok(token) ==> token_honoured(
                token@,
                target@,
                (now + self.token_ttl()) as nat,
                self.node_name(),
                self.public_key(),
            ),
    {
        proof {
            use_type_invariant(self);
        }
        let seed = &self.signing_key;
        let expiry = match now.checked_add(self.config.token_ttl_secs) {
            Some(expiry) => expiry,
            None => {
                return Err(PassportError::ExpiryOutOfRange);
            },
        };
        let payload = build_payload(target, expiry, self.config.node_id.as_str());
        let signature = sign(seed.as_slice(), payload.as_str().as_bytes());
        let signature_text = encode_b64url(signature.as_slice());
        let mut inner = payload.clone();
        proof {
            reveal_strlit(":");
            assert(":"@ =~= seq![':']);
        }
        inner.append(":");
        inner.append(signature_text.as_str());
        let token = encode_b64url(inner.as_str().as_bytes());
        proof {
            lemma_minted_honoured(
                target@,
                expiry as nat,
                self.node_name(),
                self.public_key(),
                signature@,
                signature_text@,
                token@,
            );
        }
        Ok(token)
    }

    /// Issue a passport token for a client to present to another node.
    pub fn mint(&self, target_node: &str, circuit_id: Option<String>) -> (r: Result<
        String,
        PassportError,
    >)
        ensures
            exists|now: u64|
                {
                    &&& match r {
                        Ok(token) => #[trigger] mint_outcome(
                            self.seed(),
                            target_node@,
                            self.node_name(),
                            self.token_ttl(),
                            now,
                        ) == Ok::<Seq<char>, PassportError>(token@),
                        Err(e) => mint_outcome(
                            self.seed(),
                            target_node@,
                            self.node_name(),
                            self.token_ttl(),
                            now,
                        ) == Err::<Seq<char>, PassportError>(e),
                    }
                    &&& r matches Ok(token) ==> token_honoured(
                        token@,
                        target_node@,
                        (now + self.token_ttl()) as nat,
                        self.node_name(),
                        self.public_key(),
                    )
                },
            self.token_ttl() == 0 ==> r is Ok,
    {
        let now = system_secs();
        let r = self.mint_at(target_node, circuit_id, now);
        proof {
            let _ = mint_outcome(
                self.seed(),
                target_node@,
                self.node_name(),
                self.token_ttl(),
                now,
            );
        }
        r
    }
}

/// Decides on a decoded signature: whether it is 64 bytes that `key`
/// accepts for `message`.
pub fn judge(signature: Option<Vec<u8>>, key: &[u8], message: &[u8]) -> (r: Result<
    (),
    PassportError,
>)
    requires
        key@.len() == KEY_LENGTH,
    ensures
        r == judge_signature(
            match signature {
                Some(s) => Some(s@),
                None => None,
            },
            key@,
            message@,
        ),
{
    match signature {
        None => Err(PassportError::InvalidSignatureEncoding),
        Some(sig) => {
            if sig.len() != SIGNATURE_LENGTH {
                Err(PassportError::InvalidSignatureLength)
            } else if !verify(key, message, sig.as_slice()) {
                Err(PassportError::InvalidSignature)
            } else {
                Ok(())
            }
        },
    }
}

} // verus!
