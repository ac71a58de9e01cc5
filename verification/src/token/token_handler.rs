//! The credential validator: decodes a bearer credential, tells the two
//! families of tokens apart, verifies the signature against the right key
//! and hands out who the credential stands for.

use super::bindings::{
    base64url_bytes, decode_base64url, decode_claims, ed_key_from_pem, ed_pem_is_key, eddsa,
    fault_of, json_has, json_is_null, json_keys, json_members, json_nulls, json_number,
    json_numbers, json_string, json_strings, key_id_value, parse_json, parse_key_id, parse_ulid,
    read_header, rsa_key_from_pem, rsa_pem_is_key, token_key_id, ulid_value, Fault,
    MAX_PEM_BYTES,
};
use std::collections::HashMap;
use vstd::prelude::*;
use vstd::std_specs::iter::IteratorSpec;
use vstd::string::StrSliceExecFns;
use vstd::string::StringExecFns;

verus! {

broadcast use {vstd::string::group_string_axioms, vstd::std_specs::hash::group_hash_axioms};

/// Why a credential was not accepted.
#[derive(Debug, Clone, Copy, PartialEq, Eq, Structural)]
pub enum CredentialError {
    /// The credential names an issuer that is neither the platform nor the
    /// identity provider.
    UnknownIssuer,
    /// The credential cannot be taken apart, or a claim that is needed is
    /// missing or unreadable.
    MalformedCredential,
    /// The signature does not match the key.
    InvalidSignature,
    /// The credential's expiry lies in the past.
    Expired,
    /// No usable signing key is known under the credential's key identifier.
    KeyNotFound,
    /// The identity provider's key document could not be had or used.
    KeyFetchFailed,
}

/// The issuer's name in tokens that the platform signs.
pub open spec fn platform_issuer() -> Seq<char> {
    seq!['a', 'r', 'u', 'n', 'a']
}

/// The issuer's name in tokens of the identity provider.
pub open spec fn provider_issuer() -> Seq<char> {
    seq!['o', 'i', 'd', 'c', '.', 't', 'e', 's', 't', '.', 'c', 'o', 'm']
}

/// The two families of tokens.
#[derive(Debug, Clone, Copy, PartialEq, Eq, Structural)]
pub enum IssuerFamily {
    /// Signed by the platform with one of its rotating keys.
    Platform,
    /// Signed by the identity provider with its realm key.
    Provider,
}

/// The family that an issuer's name stands for.
pub open spec fn family_of(marker: Seq<char>) -> Option<IssuerFamily> {
    if marker == platform_issuer() {
        Some(IssuerFamily::Platform)
    } else if marker == provider_issuer() {
        Some(IssuerFamily::Provider)
    } else {
        None
    }
}

/// Tells the family of a token from its issuer's name.
pub fn issuer_family(marker: &String) -> (family: Option<IssuerFamily>)
    ensures
        family == family_of(marker@),
{
    let platform = String::from_str("aruna");
    let provider = String::from_str("oidc.test.com");
    proof {
        reveal_strlit("aruna");
        reveal_strlit("oidc.test.com");
        assert(platform@ =~= platform_issuer());
        assert(provider@ =~= provider_issuer());
    }
    if *marker == platform {
        Some(IssuerFamily::Platform)
    } else if *marker == provider {
        Some(IssuerFamily::Provider)
    } else {
        None
    }
}

/// The position of the last `.` in `text`, or -1 if it has none.
pub open spec fn last_dot(text: Seq<char>) -> int
    decreases text.len(),
{
    if text.len() == 0 {
        -1
    } else if text.last() == '.' {
        text.len() - 1
    } else {
        last_dot(text.drop_last())
    }
}

/// The claims segment of a signed token: what stands between its last two
/// dots. A text with fewer than two dots has none.
pub open spec fn claims_segment(token: Seq<char>) -> Option<Seq<char>> {
    let end = last_dot(token);
    if end < 0 {
        None
    } else {
        let start = last_dot(token.take(end));
        if start < 0 {
            None
        } else {
            Some(token.subrange(start + 1, end))
        }
    }
}

/// Cuts the claims segment out of a signed token.
pub fn split_claims(token: &str) -> (segment: Option<&str>)
    ensures
        segment is Some == claims_segment(token@) is Some,
        segment matches Some(s) ==> claims_segment(token@) == Some(s@),
{
    let mut last: usize = 0;
    let mut prev: usize = 0;
    let mut dots: u8 = 0;
    let mut at: usize = 0;
    let length = token.unicode_len();
    let chars = token.chars();
    let ghost text = token@;
    assert(chars.remaining() == text);
    for c in it: chars
        invariant
            it.seq() == text,
            at == it.index(),
            at <= text.len(),
            text.len() == length,
            dots <= 2,
            dots == 0 ==> last_dot(text.take(at as int)) == -1,
            dots >= 1 ==> last < at && last_dot(text.take(at as int)) == last,
            dots == 1 ==> last_dot(text.take(last as int)) == -1,
            dots == 2 ==> prev < last && last_dot(text.take(last as int)) == prev,
    {
        proof {
            assert(text.take(at + 1).drop_last() =~= text.take(at as int));
            assert(text.take(at + 1).last() == c);
        }
        if c == '.' {
            if dots >= 1 {
                prev = last;
                dots = 2;
            } else {
                dots = 1;
            }
            last = at;
        }
        at = at + 1;
    }
    assert(text.take(at as int) =~= text);
    if dots == 2 {
        Some(token.substring_char(prev + 1, last))
    } else {
        None
    }
}

/// The claims of a token that the validator reads.
#[derive(Debug, Clone, PartialEq, Eq)]
pub struct ArunaTokenClaims {
    /// Who issued the token, as the issuer names itself.
    pub iss: String,
    /// The issuer's name by which the family of the token is told.
    pub sub: String,
    /// The user that the token stands for, as a ULID.
    pub uid: Option<String>,
    /// The token's own identifier, as a ULID.
    pub tid: Option<String>,
    /// The time at which the token expires, in seconds since the epoch.
    pub exp: u64,
}

/// A set of claims as a mathematical value.
pub struct ClaimsView {
    pub iss: Seq<char>,
    pub sub: Seq<char>,
    pub uid: Option<Seq<char>>,
    pub tid: Option<Seq<char>>,
    pub exp: u64,
}

impl View for ArunaTokenClaims {
    type V = ClaimsView;

    open spec fn view(&self) -> ClaimsView {
        ClaimsView {
            iss: self.iss@,
            sub: self.sub@,
            uid: match self.uid {
                Some(text) => Some(text@),
                None => None,
            },
            tid: match self.tid {
                Some(text) => Some(text@),
                None => None,
            },
            exp: self.exp,
        }
    }
}

/// The name of the claim `iss`.
pub open spec fn claim_iss() -> Seq<char> {
    seq!['i', 's', 's']
}

/// The name of the claim `sub`.
pub open spec fn claim_sub() -> Seq<char> {
    seq!['s', 'u', 'b']
}

/// The name of the claim `uid`.
pub open spec fn claim_uid() -> Seq<char> {
    seq!['u', 'i', 'd']
}

/// The name of the claim `tid`.
pub open spec fn claim_tid() -> Seq<char> {
    seq!['t', 'i', 'd']
}

/// The name of the claim `exp`.
pub open spec fn claim_exp() -> Seq<char> {
    seq!['e', 'x', 'p']
}

/// What a JSON document holds, as far as claims are read from it.
pub struct Members {
    /// The string members, by name.
    pub texts: Map<Seq<char>, Seq<char>>,
    /// The integer members, by name.
    pub numbers: Map<Seq<char>, u64>,
    /// The names of all members.
    pub keys: Set<Seq<char>>,
    /// The names of the members that are `null`.
    pub nulls: Set<Seq<char>>,
}

/// What a parsed document holds.
pub open spec fn members_of(value: serde_json::Value) -> Members {
    Members {
        texts: json_strings(value),
        numbers: json_numbers(value),
        keys: json_keys(value),
        nulls: json_nulls(value),
    }
}

/// The optional string member `key`: nothing where the document has no such
/// member or the member is `null`, the text where it is a string. A member
/// of any other kind is an error, given as the outer `None`.
pub open spec fn optional_text(members: Members, key: Seq<char>) -> Option<Option<Seq<char>>> {
    if !members.keys.contains(key) || members.nulls.contains(key) {
        Some(None)
    } else if members.texts.contains_key(key) {
        Some(Some(members.texts[key]))
    } else {
        None
    }
}

/// The claims in a document: the strings `iss` and `sub` and the integer
/// `exp` are required, the strings `uid` and `tid` are optional. A document
/// in which `uid` or `tid` is present and neither a string nor `null` holds
/// no claims.
pub open spec fn claims_of_members(members: Members) -> Option<ClaimsView> {
    if members.texts.contains_key(claim_iss()) && members.texts.contains_key(claim_sub())
        && members.numbers.contains_key(claim_exp()) {
        match (optional_text(members, claim_uid()), optional_text(members, claim_tid())) {
            (Some(uid), Some(tid)) => Some(
                ClaimsView {
                    iss: members.texts[claim_iss()],
                    sub: members.texts[claim_sub()],
                    uid,
                    tid,
                    exp: members.numbers[claim_exp()],
                },
            ),
            _ => None,
        }
    } else {
        None
    }
}

/// Reads an optional string member of a parsed document. The outer `None`
/// says that the member is present and neither a string nor `null`.
pub fn read_optional(value: &serde_json::Value, key: &str) -> (text: Option<Option<String>>)
    ensures
        text is Some == optional_text(members_of(*value), key@) is Some,
        text matches Some(inner) ==> optional_text(members_of(*value), key@) == Some(
            match inner {
                Some(t) => Some(t@),
                None => None,
            },
        ),
{
    if !json_has(value, key) || json_is_null(value, key) {
        return Some(None);
    }
    match json_string(value, key) {
        Some(text) => Some(Some(text)),
        None => None,
    }
}

/// Reads the claims out of a parsed document. Fails exactly when `iss` or
/// `sub` is no string member or `exp` is no integer member of it, or when
/// `uid` or `tid` is a member that is neither a string nor `null`.
pub fn read_claims(value: &serde_json::Value) -> (claims: Option<ArunaTokenClaims>)
    ensures
        claims is Some == claims_of_members(members_of(*value)) is Some,
        claims matches Some(c) ==> claims_of_members(members_of(*value)) == Some(c@),
{
    proof {
        reveal_strlit("iss");
        reveal_strlit("sub");
        reveal_strlit("uid");
        reveal_strlit("tid");
        reveal_strlit("exp");
        assert("iss"@ =~= claim_iss());
        assert("sub"@ =~= claim_sub());
        assert("uid"@ =~= claim_uid());
        assert("tid"@ =~= claim_tid());
        assert("exp"@ =~= claim_exp());
    }
    let iss = json_string(value, "iss");
    let sub = json_string(value, "sub");
    let exp = json_number(value, "exp");
    match (iss, sub, exp) {
        (Some(iss), Some(sub), Some(exp)) => {
            let uid = read_optional(value, "uid");
            let tid = read_optional(value, "tid");
            match (uid, tid) {
                (Some(uid), Some(tid)) => Some(ArunaTokenClaims { iss, sub, uid, tid, exp }),
                _ => None,
            }
        },
        _ => None,
    }
}

/// The claims that a token carries, read without checking its signature:
/// the claims segment decoded from base64 and parsed as a JSON document.
pub open spec fn unverified_claims_of(token: Seq<char>) -> Option<ClaimsView> {
    match claims_segment(token) {
        None => None,
        Some(segment) => match base64url_bytes(segment) {
            None => None,
            Some(bytes) => match json_members(bytes) {
                None => None,
                Some(found) => claims_of_members(
                    Members { texts: found.0, numbers: found.1, keys: found.2, nulls: found.3 },
                ),
            },
        },
    }
}

/// Reads the claims of a token without checking its signature. The claims
/// tell which key the token has to be verified against; nothing else may be
/// taken from them.
pub fn unverified_claims(token: &str) -> (claims: Result<ArunaTokenClaims, CredentialError>)
    ensures
        claims is Ok == unverified_claims_of(token@) is Some,
        claims matches Ok(c) ==> unverified_claims_of(token@) == Some(c@),
        claims matches Err(e) ==> e == CredentialError::MalformedCredential,
{
    let segment = match split_claims(token) {
        Some(segment) => segment,
        None => {
            return Err(CredentialError::MalformedCredential);
        },
    };
    let bytes = match decode_base64url(segment) {
        Some(bytes) => bytes,
        None => {
            return Err(CredentialError::MalformedCredential);
        },
    };
    let value = match parse_json(bytes.as_slice()) {
        Some(value) => value,
        None => {
            return Err(CredentialError::MalformedCredential);
        },
    };
    match read_claims(&value) {
        Some(claims) => Ok(claims),
        None => Err(CredentialError::MalformedCredential),
    }
}

/// The identifier in an optional claim: none where the claim is absent, an
/// error where it is present and no ULID.
pub open spec fn optional_id_of(claim: Option<Seq<char>>) -> Result<Option<u128>, CredentialError> {
    match claim {
        None => Ok(None),
        Some(text) => match ulid_value(text) {
            Some(id) => Ok(Some(id)),
            None => Err(CredentialError::MalformedCredential),
        },
    }
}

/// Reads the identifier in an optional claim.
pub fn optional_id(claim: &Option<String>) -> (id: Result<Option<u128>, CredentialError>)
    ensures
        id == optional_id_of(
            match *claim {
                Some(text) => Some(text@),
                None => None,
            },
        ),
{
    match claim {
        None => Ok(None),
        Some(text) => match parse_ulid(text.as_str()) {
            Some(id) => Ok(Some(id)),
            None => Err(CredentialError::MalformedCredential),
        },
    }
}

/// Who a set of verified claims stands for: the user in `uid`, the token in
/// `tid`, and whether a proxy's key signed them. A claim that is present
/// and no ULID makes the credential malformed.
pub open spec fn identity_of_claims(claims: ClaimsView, is_proxy: bool) -> Result<
    (Option<u128>, Option<u128>, bool),
    CredentialError,
> {
    match optional_id_of(claims.uid) {
        Err(e) => Err(e),
        Ok(user_id) => match optional_id_of(claims.tid) {
            Err(e) => Err(e),
            Ok(token_id) => Ok((user_id, token_id, is_proxy)),
        },
    }
}

/// Takes the user and token identifiers out of verified claims.
pub fn identity_of(claims: &ArunaTokenClaims, is_proxy: bool) -> (identity: Result<
    (Option<u128>, Option<u128>, bool),
    CredentialError,
>)
    ensures
        identity == identity_of_claims(claims@, is_proxy),
{
    let user_id = match optional_id(&claims.uid) {
        Ok(id) => id,
        Err(e) => {
            return Err(e);
        },
    };
    let token_id = match optional_id(&claims.tid) {
        Ok(id) => id,
        Err(e) => {
            return Err(e);
        },
    };
    Ok((user_id, token_id, is_proxy))
}

/// What verification gave, as claims or as the error that the caller sees:
/// a signature that does not match and an expiry in the past are told
/// apart, every other failure makes the credential malformed, and so do
/// verified claims that lack a required member.
pub open spec fn verified_claims_of(outcome: Result<serde_json::Value, Fault>) -> Result<
    ClaimsView,
    CredentialError,
> {
    match outcome {
        Err(Fault::InvalidSignature) => Err(CredentialError::InvalidSignature),
        Err(Fault::ExpiredSignature) => Err(CredentialError::Expired),
        Err(Fault::Other) => Err(CredentialError::MalformedCredential),
        Ok(value) => match claims_of_members(members_of(value)) {
            Some(claims) => Ok(claims),
            None => Err(CredentialError::MalformedCredential),
        },
    }
}

/// Turns the outcome of a verification into claims or the caller's error.
pub fn verified_claims(outcome: Result<serde_json::Value, Fault>) -> (claims: Result<
    ArunaTokenClaims,
    CredentialError,
>)
    ensures
        claims is Ok == verified_claims_of(outcome) is Ok,
        claims matches Ok(c) ==> verified_claims_of(outcome) == Ok::<ClaimsView, CredentialError>(
            c@,
        ),
        claims matches Err(e) ==> verified_claims_of(outcome) == Err::<
            ClaimsView,
            CredentialError,
        >(e),
{
    match outcome {
        Err(Fault::InvalidSignature) => Err(CredentialError::InvalidSignature),
        Err(Fault::ExpiredSignature) => Err(CredentialError::Expired),
        Err(Fault::Other) => Err(CredentialError::MalformedCredential),
        Ok(value) => match read_claims(&value) {
            Some(claims) => Ok(claims),
            None => Err(CredentialError::MalformedCredential),
        },
    }
}

/// A signing key of the platform in PEM, by the role of its holder.
#[derive(Debug, Clone, PartialEq, Eq)]
pub enum PubKey {
    /// The key of a data proxy.
    DataProxy(String),
    /// The key of the primary service.
    Server(String),
}

/// Whether an Ed25519 verification key can be made of the PEM text `pem`:
/// the text is no longer than is handed on, and holds such a key.
pub open spec fn pem_is_ed_key(pem: Seq<char>) -> bool {
    let bytes = vstd::utf8::encode_utf8(pem);
    bytes.len() <= MAX_PEM_BYTES && ed_pem_is_key(bytes)
}

/// Whether an RSA verification key can be made of the PEM text `pem`: the
/// text is no longer than is handed on, and holds such a key.
pub open spec fn pem_is_rsa_key(pem: Seq<char>) -> bool {
    let bytes = vstd::utf8::encode_utf8(pem);
    bytes.len() <= MAX_PEM_BYTES && rsa_pem_is_key(bytes)
}

/// Makes an Ed25519 verification key of a PEM text: its bytes are handed on
/// as they stand, unless there are too many of them.
pub fn ed_key_of(pem: &String) -> (key: Option<jsonwebtoken::DecodingKey>)
    ensures
        key is Some == pem_is_ed_key(pem@),
{
    let bytes = pem.as_str().as_bytes();
    if bytes.len() > MAX_PEM_BYTES {
        None
    } else {
        ed_key_from_pem(bytes)
    }
}

/// Makes an RSA verification key of a PEM text: its bytes are handed on as
/// they stand, unless there are too many of them.
pub fn rsa_key_of(pem: &String) -> (key: Option<jsonwebtoken::DecodingKey>)
    ensures
        key is Some == pem_is_rsa_key(pem@),
{
    let bytes = pem.as_str().as_bytes();
    if bytes.len() > MAX_PEM_BYTES {
        None
    } else {
        rsa_key_from_pem(bytes)
    }
}

impl PubKey {
    /// The key's PEM document.
    pub open spec fn pem(self) -> Seq<char> {
        match self {
            PubKey::DataProxy(pem) => pem@,
            PubKey::Server(pem) => pem@,
        }
    }

    /// An Ed25519 verification key can be made of the key's PEM document.
    pub open spec fn is_usable(self) -> bool {
        pem_is_ed_key(self.pem())
    }
}

/// Where a credential goes after its unverified claims and header are read.
pub enum Route {
    /// It is refused with this error.
    Reject(CredentialError),
    /// It is verified against the platform key with this identifier.
    Platform(i32),
    /// It is verified against the cached realm key.
    Provider,
    /// It needs the realm key, which is not cached.
    FetchRealmKey,
}

/// Where the credential `token` goes, given the known platform keys and
/// the PEM text of the cached realm key, if one is cached.
///
/// A credential without readable claims is malformed. The issuer's name in
/// `sub` tells the family; any other name is an unknown issuer. Both
/// families need a readable header. A platform token needs a key identifier
/// that is a decimal number, and under that number a key whose PEM document
/// holds an Ed25519 public key: without it the key is not found. A token
/// of the identity provider needs the realm key: with an empty slot it has
/// to be fetched, and a cached text of which no key can be made counts as a
/// failed fetch.
pub open spec fn route_of(
    token: Seq<char>,
    keys: Map<i32, PubKey>,
    realm_pem: Option<Seq<char>>,
) -> Route {
    match unverified_claims_of(token) {
        None => Route::Reject(CredentialError::MalformedCredential),
        Some(claims) => match family_of(claims.sub) {
            None => Route::Reject(CredentialError::UnknownIssuer),
            Some(IssuerFamily::Platform) => match token_key_id(token) {
                None => Route::Reject(CredentialError::MalformedCredential),
                Some(None) => Route::Reject(CredentialError::MalformedCredential),
                Some(Some(kid)) => match key_id_value(kid) {
                    None => Route::Reject(CredentialError::MalformedCredential),
                    Some(key_id) => if keys.contains_key(key_id) && keys[key_id].is_usable() {
                        Route::Platform(key_id)
                    } else {
                        Route::Reject(CredentialError::KeyNotFound)
                    },
                },
            },
            Some(IssuerFamily::Provider) => match token_key_id(token) {
                None => Route::Reject(CredentialError::MalformedCredential),
                Some(_) => match realm_pem {
                    None => Route::FetchRealmKey,
                    Some(pem) => if pem_is_rsa_key(pem) {
                        Route::Provider
                    } else {
                        Route::Reject(CredentialError::KeyFetchFailed)
                    },
                },
            },
        },
    }
}

/// How far the validation of a credential has come.
#[derive(Debug, Clone, Copy, PartialEq, Eq)]
pub enum Progress {
    /// The credential is valid: the user and the token it stands for, and
    /// whether a proxy's key signed it.
    Validated((Option<u128>, Option<u128>, bool)),
    /// The realm key has to be fetched and installed before the credential
    /// can be validated.
    NeedRealmKey,
}

/// The first line of a public key in PEM.
pub open spec fn pem_head() -> Seq<char> {
    "-----BEGIN PUBLIC KEY-----\n"@
}

/// The last line of a public key in PEM.
pub open spec fn pem_tail() -> Seq<char> {
    "\n-----END PUBLIC KEY-----"@
}

/// The name of the member that holds the key in a realm's key document.
pub open spec fn member_public_key() -> Seq<char> {
    "public_key"@
}

/// The PEM text of the key in a realm's key document: the document's string
/// member `public_key` between the two lines that frame a public key. A
/// document without that member has none.
pub open spec fn realm_pem_of(document: Seq<u8>) -> Option<Seq<char>> {
    match json_members(document) {
        None => None,
        Some(members) => if members.0.contains_key(member_public_key()) {
            Some(pem_head() + members.0[member_public_key()] + pem_tail())
        } else {
            None
        },
    }
}

/// The realm's key document holds a public key that frames to a PEM text
/// of which an RSA verification key can be made.
pub open spec fn realm_key_of(document: Seq<u8>) -> bool {
    realm_pem_of(document) matches Some(pem) && pem_is_rsa_key(pem)
}

/// Takes the public key out of a realm's key document and frames it as PEM.
/// Fails with `KeyFetchFailed` exactly when the document is no JSON object
/// with a string member `public_key`.
pub fn realm_key_pem(document: &[u8]) -> (pem: Result<String, CredentialError>)
    ensures
        pem is Ok == realm_pem_of(document@) is Some,
        pem matches Ok(text) ==> realm_pem_of(document@) == Some(text@),
        pem matches Err(e) ==> e == CredentialError::KeyFetchFailed,
{
    let value = match parse_json(document) {
        Some(value) => value,
        None => {
            return Err(CredentialError::KeyFetchFailed);
        },
    };
    match json_string(&value, "public_key") {
        Some(key) => {
            let mut pem = String::from_str("-----BEGIN PUBLIC KEY-----\n");
            pem.append(key.as_str());
            pem.append("\n-----END PUBLIC KEY-----");
            Ok(pem)
        },
        None => Err(CredentialError::KeyFetchFailed),
    }
}

/// The credential validator. It owns the platform's signing keys, by key
/// identifier, and one slot for the realm key of the identity provider,
/// which holds the key as its PEM text.
///
/// The realm key is fetched by the caller: `process_token` answers
/// `NeedRealmKey` while the slot is empty, the caller fetches the key
/// document from `oidc_realminfo` and hands it to `install_realm_key`. A
/// cached key is used until it is evicted; a signature that fails against
/// it is an invalid signature, and no fetch is asked for on that account.
pub struct TokenHandler {
    pubkeys: HashMap<i32, PubKey>,
    oidc_realminfo: String,
    oidc_pubkey: Option<String>,
}

impl TokenHandler {
    /// The platform's signing keys, by key identifier.
    pub closed spec fn keys(&self) -> Map<i32, PubKey> {
        self.pubkeys@
    }

    /// The PEM text of the cached realm key, if one is cached.
    pub closed spec fn realm_pem(&self) -> Option<Seq<char>> {
        match self.oidc_pubkey {
            Some(pem) => Some(pem@),
            None => None,
        }
    }

    /// Whether a realm key is cached.
    pub open spec fn has_realm_key(&self) -> bool {
        self.realm_pem() is Some
    }

    /// Where the realm's key document is fetched from.
    pub closed spec fn realm_address(&self) -> Seq<char> {
        self.oidc_realminfo@
    }

    /// A validator with the given platform keys and an empty slot for the
    /// realm key.
    pub fn new(pubkeys: HashMap<i32, PubKey>, oidc_realminfo: String) -> (handler: Self)
        ensures
            handler.keys() == pubkeys@,
            handler.realm_address() == oidc_realminfo@,
            handler.realm_pem() is None,
    {
        TokenHandler { pubkeys, oidc_realminfo, oidc_pubkey: None }
    }

    /// Where the realm's key document is fetched from.
    pub fn oidc_realminfo(&self) -> (address: &str)
        ensures
            address@ == self.realm_address(),
    {
        self.oidc_realminfo.as_str()
    }

    /// Whether a realm key is cached.
    pub fn holds_realm_key(&self) -> (held: bool)
        ensures
            held == self.has_realm_key(),
    {
        self.oidc_pubkey.is_some()
    }

    /// The PEM text of the cached realm key, if one is cached.
    pub fn cached_realm_pem(&self) -> (found: Option<&String>)
        ensures
            match found {
                Some(pem) => self.realm_pem() == Some(pem@),
                None => self.realm_pem() is None,
            },
    {
        match &self.oidc_pubkey {
            Some(pem) => Some(pem),
            None => None,
        }
    }

    /// Makes `key` the platform key with identifier `key_id`.
    pub fn update_pubkey(&mut self, key_id: i32, key: PubKey)
        ensures
            final(self).keys() == old(self).keys().insert(key_id, key),
            final(self).realm_pem() == old(self).realm_pem(),
            final(self).realm_address() == old(self).realm_address(),
    {
        self.pubkeys.insert(key_id, key);
    }

    /// Forgets the platform key with identifier `key_id`.
    pub fn remove_pubkey(&mut self, key_id: i32)
        ensures
            final(self).keys() == old(self).keys().remove(key_id),
            final(self).realm_pem() == old(self).realm_pem(),
            final(self).realm_address() == old(self).realm_address(),
    {
        self.pubkeys.remove(&key_id);
    }

    /// Installs the realm key from the realm's key document. It succeeds
    /// exactly when the document holds a public key that frames to a PEM
    /// text of which an RSA verification key can be made; the slot then
    /// holds that text. On failure the slot is as it was, and the error is
    /// `KeyFetchFailed`.
    pub fn install_realm_key(&mut self, document: &[u8]) -> (result: Result<(), CredentialError>)
        ensures
            result is Ok <==> realm_key_of(document@),
            result is Ok ==> final(self).realm_pem() == realm_pem_of(document@),
            result matches Err(e) ==> e == CredentialError::KeyFetchFailed,
            result is Err ==> final(self).realm_pem() == old(self).realm_pem(),
            final(self).keys() == old(self).keys(),
            final(self).realm_address() == old(self).realm_address(),
    {
        let pem = match realm_key_pem(document) {
            Ok(pem) => pem,
            Err(e) => {
                return Err(e);
            },
        };
        match rsa_key_of(&pem) {
            Some(_) => {
                self.oidc_pubkey = Some(pem);
                Ok(())
            },
            None => Err(CredentialError::KeyFetchFailed),
        }
    }

    /// Empties the slot of the realm key.
    pub fn evict_realm_key(&mut self)
        ensures
            final(self).realm_pem() is None,
            final(self).keys() == old(self).keys(),
            final(self).realm_address() == old(self).realm_address(),
    {
        self.oidc_pubkey = None;
    }

    /// Finds the platform key that a token names: the PEM document of the
    /// key under the decimal number in the header's key identifier, and
    /// whether a proxy holds it. A token without a readable header, without
    /// a key identifier or with one that is no decimal number is malformed;
    /// a number under which no key is known gives `KeyNotFound`.
    pub fn platform_key(&self, token: &str) -> (found: Result<(&String, bool), CredentialError>)
        ensures
            match token_key_id(token@) {
                Some(Some(kid)) => match key_id_value(kid) {
                    Some(key_id) => if self.keys().contains_key(key_id) {
                        (found matches Ok((pem, via_proxy)) && pem@ == self.keys()[key_id].pem()
                            && via_proxy == (self.keys()[key_id] is DataProxy))
                    } else {
                        (found matches Err(e) && e == CredentialError::KeyNotFound)
                    },
                    None => (found matches Err(e) && e == CredentialError::MalformedCredential),
                },
                _ => (found matches Err(e) && e == CredentialError::MalformedCredential),
            },
    {
        let header = match read_header(token) {
            Some(header) => header,
            None => {
                return Err(CredentialError::MalformedCredential);
            },
        };
        let kid = match header.kid {
            Some(kid) => kid,
            None => {
                return Err(CredentialError::MalformedCredential);
            },
        };
        let key_id = match parse_key_id(kid.as_str()) {
            Some(key_id) => key_id,
            None => {
                return Err(CredentialError::MalformedCredential);
            },
        };
        match self.pubkeys.get(&key_id) {
            Some(PubKey::DataProxy(pem)) => Ok((pem, true)),
            Some(PubKey::Server(pem)) => Ok((pem, false)),
            None => Err(CredentialError::KeyNotFound),
        }
    }

    /// Verifies a platform token against the key that `platform_key` finds
    /// for it, as an Ed25519 key; the key's holder tells whether the token
    /// comes through a proxy. Nothing is verified unless a key is found and
    /// a verification key can be made of it: a found key of which none can
    /// be made gives `KeyNotFound`.
    pub fn validate_aruna(&self, token: &str) -> (result: Result<
        (ArunaTokenClaims, bool),
        CredentialError,
    >)
        ensures
            match token_key_id(token@) {
                Some(Some(kid)) => match key_id_value(kid) {
                    Some(key_id) => if self.keys().contains_key(key_id)
                        && self.keys()[key_id].is_usable() {
                        match result {
                            Ok((_, is_proxy)) => is_proxy == (self.keys()[key_id] is DataProxy),
                            Err(e) => e == CredentialError::InvalidSignature || e
                                == CredentialError::Expired || e
                                == CredentialError::MalformedCredential,
                        }
                    } else {
                        (result matches Err(e) && e == CredentialError::KeyNotFound)
                    },
                    None => (result matches Err(e) && e == CredentialError::MalformedCredential),
                },
                _ => (result matches Err(e) && e == CredentialError::MalformedCredential),
            },
    {
        let (pem, is_proxy) = match self.platform_key(token) {
            Ok(found) => found,
            Err(e) => {
                return Err(e);
            },
        };
        let key = match ed_key_of(pem) {
            Some(key) => key,
            None => {
                return Err(CredentialError::KeyNotFound);
            },
        };
        let outcome = match decode_claims(token, &key, eddsa()) {
            Ok(value) => Ok(value),
            Err(error) => Err(fault_of(&error)),
        };
        match verified_claims(outcome) {
            Ok(claims) => Ok((claims, is_proxy)),
            Err(e) => Err(e),
        }
    }

    /// Verifies a token of the identity provider against the RSA key made
    /// of the cached PEM text, with the algorithm that the token's header
    /// names. With an empty slot nothing is verified and `None` is
    /// returned: the key has to be fetched first. A cached text of which no
    /// key can be made gives `KeyFetchFailed`.
    pub fn validate_oidc_only(&self, token: &str) -> (result: Result<
        Option<ArunaTokenClaims>,
        CredentialError,
    >)
        ensures
            match token_key_id(token@) {
                None => (result matches Err(e) && e == CredentialError::MalformedCredential),
                Some(_) => match self.realm_pem() {
                    None => (result matches Ok(None)),
                    Some(pem) => if pem_is_rsa_key(pem) {
                        match result {
                            Ok(claims) => claims is Some,
                            Err(e) => e == CredentialError::InvalidSignature || e
                                == CredentialError::Expired || e
                                == CredentialError::MalformedCredential,
                        }
                    } else {
                        (result matches Err(e) && e == CredentialError::KeyFetchFailed)
                    },
                },
            },
    {
        let header = match read_header(token) {
            Some(header) => header,
            None => {
                return Err(CredentialError::MalformedCredential);
            },
        };
        let pem = match self.cached_realm_pem() {
            Some(pem) => pem,
            None => {
                return Ok(None);
            },
        };
        let key = match rsa_key_of(pem) {
            Some(key) => key,
            None => {
                return Err(CredentialError::KeyFetchFailed);
            },
        };
        let outcome = match decode_claims(token, &key, header.alg) {
            Ok(value) => Ok(value),
            Err(error) => Err(fault_of(&error)),
        };
        match verified_claims(outcome) {
            Ok(claims) => Ok(Some(claims)),
            Err(e) => Err(e),
        }
    }

    /// Validates a bearer credential.
    ///
    /// The unverified claims tell the family of the token; nothing else is
    /// taken from them. What `route_of` refuses is refused with that error
    /// before anything is verified. A token of the identity provider that
    /// comes while no realm key is cached gives `NeedRealmKey`, and only
    /// such a token does. Every other token is verified, signature and
    /// expiry, against the key that its route names, and the identifiers
    /// are read from the verified claims; a platform token counts as a
    /// proxy's exactly when a proxy holds its key.
    pub fn process_token(&self, token: &str) -> (result: Result<Progress, CredentialError>)
        ensures
            match route_of(token@, self.keys(), self.realm_pem()) {
                Route::Reject(error) => (result matches Err(e) && e == error),
                Route::FetchRealmKey => (result matches Ok(Progress::NeedRealmKey)),
                Route::Platform(key_id) => match result {
                    Ok(Progress::Validated((_, _, is_proxy))) => is_proxy == (
                    self.keys()[key_id] is DataProxy),
                    Ok(Progress::NeedRealmKey) => false,
                    Err(e) => e == CredentialError::InvalidSignature || e
                        == CredentialError::Expired || e == CredentialError::MalformedCredential,
                },
                Route::Provider => match result {
                    Ok(Progress::Validated((_, _, is_proxy))) => !is_proxy,
                    Ok(Progress::NeedRealmKey) => false,
                    Err(e) => e == CredentialError::InvalidSignature || e
                        == CredentialError::Expired || e == CredentialError::MalformedCredential,
                },
            },
    {
        let claims = match unverified_claims(token) {
            Ok(claims) => claims,
            Err(e) => {
                return Err(e);
            },
        };
        let (checked_claims, is_proxy) = match issuer_family(&claims.sub) {
            None => {
                return Err(CredentialError::UnknownIssuer);
            },
            Some(IssuerFamily::Provider) => match self.validate_oidc_only(token) {
                Ok(Some(checked)) => (checked, false),
                Ok(None) => {
                    return Ok(Progress::NeedRealmKey);
                },
                Err(e) => {
                    return Err(e);
                },
            },
            Some(IssuerFamily::Platform) => match self.validate_aruna(token) {
                Ok(checked) => checked,
                Err(e) => {
                    return Err(e);
                },
            },
        };
        match identity_of(&checked_claims, is_proxy) {
            Ok(identity) => Ok(Progress::Validated(identity)),
            Err(e) => Err(e),
        }
    }
}

/// A platform token whose key identifier names no usable key is refused
/// with `KeyNotFound` on its route, before anything is verified.
pub proof fn lemma_unknown_key_is_not_found(
    token: Seq<char>,
    keys: Map<i32, PubKey>,
    realm_pem: Option<Seq<char>>,
    kid: Seq<char>,
    key_id: i32,
)
    requires
        unverified_claims_of(token) matches Some(claims) && family_of(claims.sub) == Some(
            IssuerFamily::Platform,
        ),
        token_key_id(token) == Some(Some(kid)),
        key_id_value(kid) == Some(key_id),
        !keys.contains_key(key_id) || !keys[key_id].is_usable(),
    ensures
        route_of(token, keys, realm_pem) == Route::Reject(CredentialError::KeyNotFound),
{
}

/// The realm key is asked for only when it is needed and missing: a
/// credential is routed to a fetch exactly when the slot is empty and the
/// credential is a token of the identity provider with a readable header.
/// While a key is cached no credential asks for a fetch, and what the slot
/// holds changes the route of no other credential.
pub proof fn lemma_fetch_only_on_empty_slot(
    token: Seq<char>,
    keys: Map<i32, PubKey>,
    realm_pem: Option<Seq<char>>,
)
    ensures
        route_of(token, keys, realm_pem) is FetchRealmKey <==> (realm_pem is None && route_of(
            token,
            keys,
            None,
        ) is FetchRealmKey),
        realm_pem is Some ==> !(route_of(token, keys, realm_pem) is FetchRealmKey),
        !(route_of(token, keys, None) is FetchRealmKey) ==> route_of(token, keys, realm_pem)
            == route_of(token, keys, None),
{
}

/// After a key document was installed, a token that asked for the fetch is
/// verified against the key of that document: its route goes by the PEM
/// text that the document frames to, and asks for no further fetch.
pub proof fn lemma_installed_key_is_used(
    token: Seq<char>,
    keys: Map<i32, PubKey>,
    document: Seq<u8>,
)
    requires
        route_of(token, keys, None) is FetchRealmKey,
        realm_key_of(document),
    ensures
        route_of(token, keys, realm_pem_of(document)) is Provider,
{
}

/// The platform's keys play no part in the route of a token of the
/// identity provider, nor the realm key in that of a platform token.
pub proof fn lemma_families_use_their_own_keys(
    token: Seq<char>,
    keys: Map<i32, PubKey>,
    other_keys: Map<i32, PubKey>,
    realm_pem: Option<Seq<char>>,
    other_pem: Option<Seq<char>>,
)
    ensures
        route_of(token, keys, realm_pem) is Provider || route_of(token, keys, realm_pem)
            is FetchRealmKey ==> route_of(token, other_keys, realm_pem) == route_of(
            token,
            keys,
            realm_pem,
        ),
        route_of(token, keys, realm_pem) is Platform ==> route_of(token, keys, other_pem)
            == route_of(token, keys, realm_pem),
{
}

} // verus!
