//! The calls into the crates that decode, parse and verify credentials.
//! Nothing in this file is proved: each contract states what the called
//! function is relied on to do.

use base64::Engine;
use std::str::FromStr;
use vstd::prelude::*;

verus! {

/// A parsed JSON document of `serde_json`.
#[verifier::external_type_specification]
#[verifier::external_body]
pub struct ExJsonValue(serde_json::Value);

/// A signature verification key of `jsonwebtoken`.
#[verifier::external_type_specification]
#[verifier::external_body]
pub struct ExDecodingKey(jsonwebtoken::DecodingKey);

/// A signature algorithm of `jsonwebtoken`.
#[verifier::external_type_specification]
#[verifier::external_body]
pub struct ExAlgorithm(jsonwebtoken::Algorithm);

/// An error of `jsonwebtoken`.
#[verifier::external_type_specification]
#[verifier::external_body]
pub struct ExTokenError(jsonwebtoken::errors::Error);

/// The bytes that `text` stands for in unpadded URL-safe base64, if it is
/// such an encoding.
pub uninterp spec fn base64url_bytes(text: Seq<char>) -> Option<Seq<u8>>;

/// Calls `Engine::decode` of `base64` on its `URL_SAFE_NO_PAD` engine. The
/// result is a function of the text alone; a text that the engine rejects
/// gives `None`.
#[verifier::external_body]
pub(crate) fn decode_base64url(text: &str) -> (bytes: Option<Vec<u8>>)
    ensures
        bytes is Some == base64url_bytes(text@) is Some,
        bytes matches Some(b) ==> base64url_bytes(text@) == Some(b@),
{
    base64::engine::general_purpose::URL_SAFE_NO_PAD.decode(text).ok()
}

/// The identifier that `text` denotes as a ULID in Crockford base32, if it
/// denotes one.
pub uninterp spec fn ulid_value(text: Seq<char>) -> Option<u128>;

/// Calls `DieselUlid::from_str` of `diesel_ulid` and hands the identifier
/// out as the 128-bit number that its sixteen bytes spell, first byte
/// highest. The result is a function of the text alone; a text that is no
/// ULID gives `None`.
#[verifier::external_body]
pub(crate) fn parse_ulid(text: &str) -> (id: Option<u128>)
    ensures
        id == ulid_value(text@),
{
    match diesel_ulid::DieselUlid::from_str(text) {
        Ok(ulid) => Some(u128::from_be_bytes(ulid.as_byte_array())),
        Err(_) => None,
    }
}

/// The text of the identifier `id` as a ULID in Crockford base32.
pub uninterp spec fn ulid_string(id: u128) -> Seq<char>;

/// Makes a `DieselUlid` of `diesel_ulid` from the sixteen bytes that spell
/// `id`, first byte highest, and calls `to_string` on it. The result is a
/// function of the identifier alone.
#[verifier::external_body]
pub(crate) fn ulid_text(id: u128) -> (text: String)
    ensures
        text@ == ulid_string(id),
{
    diesel_ulid::DieselUlid::from(id.to_be_bytes()).to_string()
}

/// The number that `text` denotes as a decimal `i32`, if it denotes one.
pub uninterp spec fn key_id_value(text: Seq<char>) -> Option<i32>;

/// Calls `str::parse::<i32>` of std. The result is a function of the text
/// alone; a text that is no decimal `i32` gives `None`.
#[verifier::external_body]
pub(crate) fn parse_key_id(text: &str) -> (key_id: Option<i32>)
    ensures
        key_id == key_id_value(text@),
{
    text.parse::<i32>().ok()
}

/// The members of a JSON document whose values are strings, by member name.
/// A value that is no object has none.
pub uninterp spec fn json_strings(value: serde_json::Value) -> Map<Seq<char>, Seq<char>>;

/// The members of a JSON document whose values are integers from 0 to
/// `u64::MAX`, by member name. A value that is no object has none.
pub uninterp spec fn json_numbers(value: serde_json::Value) -> Map<Seq<char>, u64>;

/// The names of the members of a JSON document. A value that is no object
/// has none.
pub uninterp spec fn json_keys(value: serde_json::Value) -> Set<Seq<char>>;

/// The names of the members of a JSON document whose value is `null`. A
/// value that is no object has none.
pub uninterp spec fn json_nulls(value: serde_json::Value) -> Set<Seq<char>>;

/// What the JSON document that `bytes` spell holds, if they spell one: its
/// string members, its integer members, the names of all its members and
/// the names of those that are `null`.
pub uninterp spec fn json_members(bytes: Seq<u8>) -> Option<
    (Map<Seq<char>, Seq<char>>, Map<Seq<char>, u64>, Set<Seq<char>>, Set<Seq<char>>),
>;

/// Calls `serde_json::from_slice` for a `Value`. The result is a function
/// of the bytes alone; bytes that are no JSON document give `None`.
#[verifier::external_body]
pub(crate) fn parse_json(bytes: &[u8]) -> (value: Option<serde_json::Value>)
    ensures
        value is Some == json_members(bytes@) is Some,
        value matches Some(v) ==> json_members(bytes@) == Some(
            (json_strings(v), json_numbers(v), json_keys(v), json_nulls(v)),
        ),
{
    serde_json::from_slice::<serde_json::Value>(bytes).ok()
}

/// Calls `Value::get` with a member name and `Value::as_str` on what it
/// finds: the member's text where `value` is an object that has the member
/// and the member is a string, `None` otherwise.
#[verifier::external_body]
pub(crate) fn json_string(value: &serde_json::Value, key: &str) -> (text: Option<String>)
    ensures
        text is Some == json_strings(*value).contains_key(key@),
        text matches Some(t) ==> t@ == json_strings(*value)[key@],
{
    match value.get(key) {
        Some(member) => member.as_str().map(str::to_owned),
        None => None,
    }
}

/// Calls `Value::get` with a member name and `Value::as_u64` on what it
/// finds: the member's number where `value` is an object that has the
/// member and the member is an integer from 0 to `u64::MAX`, `None`
/// otherwise.
#[verifier::external_body]
pub(crate) fn json_number(value: &serde_json::Value, key: &str) -> (number: Option<u64>)
    ensures
        number is Some == json_numbers(*value).contains_key(key@),
        number matches Some(n) ==> n == json_numbers(*value)[key@],
{
    match value.get(key) {
        Some(member) => member.as_u64(),
        None => None,
    }
}

/// Calls `Value::get` with a member name: whether `value` is an object that
/// has the member.
#[verifier::external_body]
pub(crate) fn json_has(value: &serde_json::Value, key: &str) -> (present: bool)
    ensures
        present == json_keys(*value).contains(key@),
{
    value.get(key).is_some()
}

/// Calls `Value::get` with a member name and `Value::is_null` on what it
/// finds: whether `value` is an object that has the member and the member
/// is `null`.
#[verifier::external_body]
pub(crate) fn json_is_null(value: &serde_json::Value, key: &str) -> (null: bool)
    ensures
        null == json_nulls(*value).contains(key@),
{
    match value.get(key) {
        Some(member) => member.is_null(),
        None => false,
    }
}

/// What the header of a signed token says about the key and the algorithm
/// that signed it.
pub struct TokenHeader {
    pub kid: Option<String>,
    pub alg: jsonwebtoken::Algorithm,
}

impl TokenHeader {
    /// The key identifier as text.
    pub open spec fn key_id(self) -> Option<Seq<char>> {
        match self.kid {
            Some(kid) => Some(kid@),
            None => None,
        }
    }
}

/// The key identifier in the header of the signed token `token`: `None`
/// where the token has no readable header, `Some(None)` where the header
/// names no key.
pub uninterp spec fn token_key_id(token: Seq<char>) -> Option<Option<Seq<char>>>;

/// Calls `jsonwebtoken::decode_header` and hands out the header's `kid` and
/// `alg`. Whether there is a header, and its key identifier, are functions
/// of the token alone; a token without a readable header gives `None`.
#[verifier::external_body]
pub(crate) fn read_header(token: &str) -> (header: Option<TokenHeader>)
    ensures
        header is Some == token_key_id(token@) is Some,
        header matches Some(h) ==> token_key_id(token@) == Some(h.key_id()),
{
    match jsonwebtoken::decode_header(token) {
        Ok(header) => Some(TokenHeader { kid: header.kid, alg: header.alg }),
        Err(_) => None,
    }
}

/// The algorithm `EdDSA` of `jsonwebtoken`.
#[verifier::external_body]
pub(crate) fn eddsa() -> jsonwebtoken::Algorithm {
    jsonwebtoken::Algorithm::EdDSA
}

/// The longest PEM document that is handed to `jsonwebtoken`. Reading a
/// document descends once for every level of nesting in it, and a document
/// of this length cannot nest deep enough to exhaust the stack. Every key
/// that `jsonwebtoken` verifies with is shorter.
pub const MAX_PEM_BYTES: usize = 4096;

/// Whether the PEM document `pem` holds an Ed25519 public key that
/// `jsonwebtoken` accepts.
pub uninterp spec fn ed_pem_is_key(pem: Seq<u8>) -> bool;

/// Calls `DecodingKey::from_ed_pem`: the Ed25519 verification key in a PEM
/// document, `None` where the document holds no such key. Whether there is
/// a key is a function of the document alone.
#[verifier::external_body]
pub(crate) fn ed_key_from_pem(pem: &[u8]) -> (key: Option<jsonwebtoken::DecodingKey>)
    requires
        pem@.len() <= MAX_PEM_BYTES,
    ensures
        key is Some == ed_pem_is_key(pem@),
{
    jsonwebtoken::DecodingKey::from_ed_pem(pem).ok()
}

/// Whether `jsonwebtoken` takes an RSA key from the PEM document `pem`. It
/// takes one from a document that is framed as a public key, and also from
/// one that is framed as an RSA key pair, a private key or a certificate.
pub uninterp spec fn rsa_pem_is_key(pem: Seq<u8>) -> bool;

/// Calls `DecodingKey::from_rsa_pem`: the RSA verification key that
/// `jsonwebtoken` takes from a PEM document, `None` where it takes none.
/// Whether there is a key is a function of the document alone.
#[verifier::external_body]
pub(crate) fn rsa_key_from_pem(pem: &[u8]) -> (key: Option<jsonwebtoken::DecodingKey>)
    requires
        pem@.len() <= MAX_PEM_BYTES,
    ensures
        key is Some == rsa_pem_is_key(pem@),
{
    jsonwebtoken::DecodingKey::from_rsa_pem(pem).ok()
}

/// Calls `jsonwebtoken::decode` with `Validation::new(alg)`: checks the
/// token's signature against `key` and its expiry against the clock, and
/// hands out the claims. Nothing is stated of the outcome: it depends on
/// the time of the call. The call relies on a clock that is set to a time
/// after 1970.
#[verifier::external_body]
pub(crate) fn decode_claims(
    token: &str,
    key: &jsonwebtoken::DecodingKey,
    alg: jsonwebtoken::Algorithm,
) -> Result<serde_json::Value, jsonwebtoken::errors::Error> {
    let validation = jsonwebtoken::Validation::new(alg);
    match jsonwebtoken::decode::<serde_json::Value>(token, key, &validation) {
        Ok(data) => Ok(data.claims),
        Err(error) => Err(error),
    }
}

/// Why a token failed verification, as far as the library tells causes apart.
#[derive(Debug, Clone, Copy, PartialEq, Eq, Structural)]
pub enum Fault {
    /// The signature does not match the key.
    InvalidSignature,
    /// The token's expiry lies in the past.
    ExpiredSignature,
    /// Any other cause.
    Other,
}

/// Calls `Error::kind` of `jsonwebtoken` and tells `InvalidSignature` and
/// `ExpiredSignature` from every other kind.
#[verifier::external_body]
pub(crate) fn fault_of(error: &jsonwebtoken::errors::Error) -> Fault {
    match error.kind() {
        jsonwebtoken::errors::ErrorKind::InvalidSignature => Fault::InvalidSignature,
        jsonwebtoken::errors::ErrorKind::ExpiredSignature => Fault::ExpiredSignature,
        _ => Fault::Other,
    }
}

} // verus!
