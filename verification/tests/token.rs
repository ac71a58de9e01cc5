use aruna_ape::token::token_handler::{
    ed_key_of, identity_of, issuer_family, read_claims, read_optional, realm_key_pem, rsa_key_of,
    split_claims, unverified_claims, verified_claims, ArunaTokenClaims, CredentialError,
    IssuerFamily, Progress, PubKey, TokenHandler,
};
use aruna_ape::token::bindings::Fault;
use base64::Engine;
use jsonwebtoken::{encode, Algorithm, EncodingKey, Header};
use openssl::pkey::{PKey, Private};
use openssl::rsa::Rsa;
use serde_json::{Number, Value};
use std::collections::HashMap;


const USER_ULID: &str = "01ARZ3NDEKTSV4RRFFQ69G5FAV";
const USER_ID: u128 = 1777027686520646174104517696511196507;
const TOKEN_ULID: &str = "01H819W7HKJX5DXQ6B3ZVVQ5XS";
const TOKEN_ID: u128 = 2045818054478526612644809858204014521;
const FAR_FUTURE: u64 = 4102444800;

fn claims(sub: &str, uid: Option<&str>, tid: Option<&str>, exp: u64) -> Value {
    let mut members = serde_json::Map::new();
    members.insert("iss".to_string(), Value::String("issuer".to_string()));
    members.insert("sub".to_string(), Value::String(sub.to_string()));
    if let Some(uid) = uid {
        members.insert("uid".to_string(), Value::String(uid.to_string()));
    }
    if let Some(tid) = tid {
        members.insert("tid".to_string(), Value::String(tid.to_string()));
    }
    members.insert("exp".to_string(), Value::Number(Number::from(exp)));
    Value::Object(members)
}

/// A key pair made for one test: the private key signs the test's tokens,
/// the public key is what the validator is given.
struct TestKey {
    pair: PKey<Private>,
}

impl TestKey {
    fn ed25519() -> TestKey {
        TestKey { pair: PKey::generate_ed25519().unwrap() }
    }

    fn rsa() -> TestKey {
        TestKey { pair: PKey::from_rsa(Rsa::generate(2048).unwrap()).unwrap() }
    }

    fn private_pem(&self) -> Vec<u8> {
        self.pair.private_key_to_pem_pkcs8().unwrap()
    }

    fn public_pem(&self) -> String {
        String::from_utf8(self.pair.public_key_to_pem().unwrap()).unwrap()
    }

    /// The public key as it stands in a realm's key document: the key's
    /// DER in base64, without the lines that frame a PEM.
    fn public_body(&self) -> String {
        base64::engine::general_purpose::STANDARD.encode(self.pair.public_key_to_der().unwrap())
    }
}

struct Platform {
    server: TestKey,
    proxy: TestKey,
}

impl Platform {
    fn new() -> Platform {
        Platform { server: TestKey::ed25519(), proxy: TestKey::ed25519() }
    }

    fn handler(&self) -> TokenHandler {
        TokenHandler::new(
            HashMap::from([
                (1, PubKey::Server(self.server.public_pem())),
                (2, PubKey::DataProxy(self.proxy.public_pem())),
            ]),
            "http://localhost/realms/test".to_string(),
        )
    }
}

fn platform_token(kid: Option<&str>, key: &TestKey, claims: &Value) -> String {
    let mut header = Header::new(Algorithm::EdDSA);
    header.kid = kid.map(|k| k.to_string());
    encode(&header, claims, &EncodingKey::from_ed_pem(&key.private_pem()).unwrap()).unwrap()
}

fn provider_token(key: &TestKey, claims: &Value) -> String {
    let header = Header::new(Algorithm::RS256);
    encode(&header, claims, &EncodingKey::from_rsa_pem(&key.private_pem()).unwrap()).unwrap()
}

fn realm_document(key: &TestKey) -> Vec<u8> {
    let mut members = serde_json::Map::new();
    members.insert("realm".to_string(), Value::String("test".to_string()));
    members.insert("public_key".to_string(), Value::String(key.public_body()));
    members.insert("tokens-not-before".to_string(), Value::Number(Number::from(0)));
    serde_json::to_vec(&Value::Object(members)).unwrap()
}

fn with_first_signature_char_changed(token: &str) -> String {
    let cut = token.rfind('.').unwrap() + 1;
    let first = token[cut..].chars().next().unwrap();
    let other = if first == 'A' { 'B' } else { 'A' };
    format!("{}{}{}", &token[..cut], other, &token[cut + 1..])
}

#[test]
fn platform_token_round_trip() {
    let platform = Platform::new();
    let token = platform_token(Some("1"), &platform.server, &claims("aruna", Some(USER_ULID), Some(TOKEN_ULID), FAR_FUTURE));
    assert_eq!(
        platform.handler().process_token(&token),
        Ok(Progress::Validated((Some(USER_ID), Some(TOKEN_ID), false)))
    );
}

#[test]
fn platform_token_without_token_id() {
    let platform = Platform::new();
    let token = platform_token(Some("1"), &platform.server, &claims("aruna", Some(USER_ULID), None, FAR_FUTURE));
    assert_eq!(platform.handler().process_token(&token), Ok(Progress::Validated((Some(USER_ID), None, false))));
    let token = platform_token(Some("1"), &platform.server, &claims("aruna", None, None, FAR_FUTURE));
    assert_eq!(platform.handler().process_token(&token), Ok(Progress::Validated((None, None, false))));
}

#[test]
fn proxy_key_marks_proxy() {
    let platform = Platform::new();
    let token = platform_token(Some("2"), &platform.proxy, &claims("aruna", Some(USER_ULID), None, FAR_FUTURE));
    assert_eq!(platform.handler().process_token(&token), Ok(Progress::Validated((Some(USER_ID), None, true))));
}

#[test]
fn changed_signature_is_invalid() {
    let platform = Platform::new();
    let token = platform_token(Some("1"), &platform.server, &claims("aruna", Some(USER_ULID), Some(TOKEN_ULID), FAR_FUTURE));
    let forged = with_first_signature_char_changed(&token);
    assert_ne!(forged, token);
    assert_eq!(platform.handler().process_token(&forged), Err(CredentialError::InvalidSignature));
}

#[test]
fn signature_of_another_key_is_invalid() {
    let platform = Platform::new();
    let token = platform_token(Some("1"), &platform.proxy, &claims("aruna", Some(USER_ULID), None, FAR_FUTURE));
    assert_eq!(platform.handler().process_token(&token), Err(CredentialError::InvalidSignature));
}

#[test]
fn unknown_key_id_is_not_found() {
    let platform = Platform::new();
    let token = platform_token(Some("3"), &platform.server, &claims("aruna", Some(USER_ULID), None, FAR_FUTURE));
    assert_eq!(platform.handler().process_token(&token), Err(CredentialError::KeyNotFound));
    let mut known = platform.handler();
    known.update_pubkey(3, PubKey::Server(platform.server.public_pem()));
    assert_eq!(known.process_token(&token), Ok(Progress::Validated((Some(USER_ID), None, false))));
    known.remove_pubkey(3);
    assert_eq!(known.process_token(&token), Err(CredentialError::KeyNotFound));
}

#[test]
fn unusable_key_material_is_not_found() {
    let platform = Platform::new();
    let mut broken = platform.handler();
    broken.update_pubkey(1, PubKey::Server("no key".to_string()));
    let token = platform_token(Some("1"), &platform.server, &claims("aruna", Some(USER_ULID), None, FAR_FUTURE));
    assert_eq!(broken.process_token(&token), Err(CredentialError::KeyNotFound));
}

#[test]
fn key_id_must_be_a_number() {
    let platform = Platform::new();
    let body = claims("aruna", Some(USER_ULID), None, FAR_FUTURE);
    let token = platform_token(None, &platform.server, &body);
    assert_eq!(platform.handler().process_token(&token), Err(CredentialError::MalformedCredential));
    let token = platform_token(Some("one"), &platform.server, &body);
    assert_eq!(platform.handler().process_token(&token), Err(CredentialError::MalformedCredential));
    let token = platform_token(Some("+2"), &platform.proxy, &body);
    assert_eq!(platform.handler().process_token(&token), Ok(Progress::Validated((Some(USER_ID), None, true))));
}

#[test]
fn expired_token_is_expired() {
    let platform = Platform::new();
    let token = platform_token(Some("1"), &platform.server, &claims("aruna", Some(USER_ULID), None, 1000));
    assert_eq!(platform.handler().process_token(&token), Err(CredentialError::Expired));
}

#[test]
fn unknown_issuer_is_refused() {
    let platform = Platform::new();
    let token = platform_token(Some("1"), &platform.server, &claims("someone", Some(USER_ULID), None, FAR_FUTURE));
    assert_eq!(platform.handler().process_token(&token), Err(CredentialError::UnknownIssuer));
    let token = platform_token(Some("1"), &platform.server, &claims("Aruna", Some(USER_ULID), None, FAR_FUTURE));
    assert_eq!(platform.handler().process_token(&token), Err(CredentialError::UnknownIssuer));
}

#[test]
fn malformed_credentials_are_refused() {
    let platform = Platform::new();
    let h = platform.handler();
    for token in ["", "abc", "a.b", "a.b.c", "..", "e30.e30.e30", "x.!!!.y"] {
        assert_eq!(h.process_token(token), Err(CredentialError::MalformedCredential));
    }
    let mut no_sub = serde_json::Map::new();
    no_sub.insert("iss".to_string(), Value::String("aruna".to_string()));
    no_sub.insert("exp".to_string(), Value::Number(Number::from(FAR_FUTURE)));
    let token = platform_token(Some("1"), &platform.server, &Value::Object(no_sub));
    assert_eq!(h.process_token(&token), Err(CredentialError::MalformedCredential));
    let mut text_exp = serde_json::Map::new();
    text_exp.insert("iss".to_string(), Value::String("aruna".to_string()));
    text_exp.insert("sub".to_string(), Value::String("aruna".to_string()));
    text_exp.insert("exp".to_string(), Value::String("later".to_string()));
    let token = platform_token(Some("1"), &platform.server, &Value::Object(text_exp));
    assert_eq!(h.process_token(&token), Err(CredentialError::MalformedCredential));
}

#[test]
fn user_id_must_be_a_ulid() {
    let platform = Platform::new();
    let token = platform_token(Some("1"), &platform.server, &claims("aruna", Some("not a ulid"), None, FAR_FUTURE));
    assert_eq!(platform.handler().process_token(&token), Err(CredentialError::MalformedCredential));
    let token = platform_token(Some("1"), &platform.server, &claims("aruna", Some(USER_ULID), Some("8ZZZZZZZZZZZZZZZZZZZZZZZZZ"), FAR_FUTURE));
    assert_eq!(platform.handler().process_token(&token), Err(CredentialError::MalformedCredential));
}

#[test]
fn realm_key_is_fetched_once() {
    let platform = Platform::new();
    let realm = TestKey::rsa();
    let mut h = platform.handler();
    let token = provider_token(&realm, &claims("oidc.test.com", Some(USER_ULID), None, FAR_FUTURE));
    let mut fetches = 0;
    for _ in 0..2 {
        let mut outcome = h.process_token(&token);
        if outcome == Ok(Progress::NeedRealmKey) {
            fetches += 1;
            assert_eq!(h.install_realm_key(&realm_document(&realm)), Ok(()));
            outcome = h.process_token(&token);
        }
        assert_eq!(outcome, Ok(Progress::Validated((Some(USER_ID), None, false))));
    }
    assert_eq!(fetches, 1);
    assert!(h.holds_realm_key());
    h.evict_realm_key();
    assert!(!h.holds_realm_key());
    let mut outcome = h.process_token(&token);
    if outcome == Ok(Progress::NeedRealmKey) {
        fetches += 1;
        assert_eq!(h.install_realm_key(&realm_document(&realm)), Ok(()));
        outcome = h.process_token(&token);
    }
    assert_eq!(outcome, Ok(Progress::Validated((Some(USER_ID), None, false))));
    assert_eq!(fetches, 2);
}

#[test]
fn platform_tokens_need_no_realm_key() {
    let platform = Platform::new();
    let h = platform.handler();
    let token = platform_token(Some("1"), &platform.server, &claims("aruna", None, None, FAR_FUTURE));
    assert!(!h.holds_realm_key());
    assert_eq!(h.process_token(&token), Ok(Progress::Validated((None, None, false))));
}

#[test]
fn provider_token_of_another_realm_is_invalid() {
    let platform = Platform::new();
    let realm = TestKey::rsa();
    let mut h = platform.handler();
    assert_eq!(h.install_realm_key(&realm_document(&realm)), Ok(()));
    let token = provider_token(&TestKey::rsa(), &claims("oidc.test.com", Some(USER_ULID), None, FAR_FUTURE));
    assert_eq!(h.process_token(&token), Err(CredentialError::InvalidSignature));
    assert!(h.holds_realm_key());
    let expired = provider_token(&realm, &claims("oidc.test.com", Some(USER_ULID), None, 1000));
    assert_eq!(h.process_token(&expired), Err(CredentialError::Expired));
}

#[test]
fn bad_key_documents_fail_and_keep_the_slot() {
    let platform = Platform::new();
    let realm = TestKey::rsa();
    let mut h = platform.handler();
    assert_eq!(h.install_realm_key(b"not json"), Err(CredentialError::KeyFetchFailed));
    assert_eq!(h.install_realm_key(b"{\"realm\":\"test\"}"), Err(CredentialError::KeyFetchFailed));
    assert_eq!(h.install_realm_key(b"{\"public_key\":5}"), Err(CredentialError::KeyFetchFailed));
    assert_eq!(h.install_realm_key(b"{\"public_key\":\"AAAA\"}"), Err(CredentialError::KeyFetchFailed));
    assert!(!h.holds_realm_key());
    assert_eq!(h.install_realm_key(&realm_document(&realm)), Ok(()));
    assert_eq!(h.install_realm_key(b"not json"), Err(CredentialError::KeyFetchFailed));
    assert!(h.holds_realm_key());
    assert_eq!(h.oidc_realminfo(), "http://localhost/realms/test");
}

#[test]
fn realm_key_is_framed_as_pem() {
    assert_eq!(
        realm_key_pem(b"{\"public_key\":\"QUJD\",\"realm\":\"r\"}"),
        Ok("-----BEGIN PUBLIC KEY-----\nQUJD\n-----END PUBLIC KEY-----".to_string())
    );
    assert_eq!(realm_key_pem(b"[]"), Err(CredentialError::KeyFetchFailed));
}

#[test]
fn claims_segment_lies_between_the_last_two_dots() {
    assert_eq!(split_claims("head.body.tail"), Some("body"));
    assert_eq!(split_claims("a.b.c.d"), Some("c"));
    assert_eq!(split_claims(".."), Some(""));
    assert_eq!(split_claims("\u{e9}.\u{fc}\u{df}.x"), Some("\u{fc}\u{df}"));
    assert_eq!(split_claims("head.body"), None);
    assert_eq!(split_claims("nothing"), None);
    assert_eq!(split_claims(""), None);
}

#[test]
fn issuer_names() {
    assert_eq!(issuer_family(&"aruna".to_string()), Some(IssuerFamily::Platform));
    assert_eq!(issuer_family(&"oidc.test.com".to_string()), Some(IssuerFamily::Provider));
    assert_eq!(issuer_family(&"aruna ".to_string()), None);
    assert_eq!(issuer_family(&"".to_string()), None);
}

#[test]
fn unverified_claims_are_read_from_the_segment() {
    let platform = Platform::new();
    let body = claims("aruna", Some(USER_ULID), Some(TOKEN_ULID), 77);
    let token = platform_token(Some("1"), &platform.server, &body);
    let expected = ArunaTokenClaims {
        iss: "issuer".to_string(),
        sub: "aruna".to_string(),
        uid: Some(USER_ULID.to_string()),
        tid: Some(TOKEN_ULID.to_string()),
        exp: 77,
    };
    assert_eq!(unverified_claims(&token), Ok(expected.clone()));
    assert_eq!(read_claims(&body), Some(expected));
    assert_eq!(read_claims(&Value::Null), None);
    assert_eq!(unverified_claims("a.e30.c"), Err(CredentialError::MalformedCredential));
}

#[test]
fn identifiers_are_read_as_numbers() {
    let mut c = ArunaTokenClaims {
        iss: "issuer".to_string(),
        sub: "aruna".to_string(),
        uid: Some("7ZZZZZZZZZZZZP2RK3CHJPCC9J".to_string()),
        tid: Some("00000000000000000000000001".to_string()),
        exp: 0,
    };
    assert_eq!(identity_of(&c, true), Ok((Some(0xffffffffffffffff6162636465663132), Some(1), true)));
    c.tid = Some("1".to_string());
    assert_eq!(identity_of(&c, true), Err(CredentialError::MalformedCredential));
    c.tid = None;
    c.uid = None;
    assert_eq!(identity_of(&c, false), Ok((None, None, false)));
}

#[test]
fn verification_faults_become_errors() {
    assert_eq!(verified_claims(Err(Fault::InvalidSignature)), Err(CredentialError::InvalidSignature));
    assert_eq!(verified_claims(Err(Fault::ExpiredSignature)), Err(CredentialError::Expired));
    assert_eq!(verified_claims(Err(Fault::Other)), Err(CredentialError::MalformedCredential));
    assert_eq!(verified_claims(Ok(Value::Bool(true))), Err(CredentialError::MalformedCredential));
    let body = claims("aruna", None, None, 5);
    assert_eq!(verified_claims(Ok(body)).map(|c| c.exp), Ok(5));
}

fn with_member(mut claims: Value, name: &str, member: Value) -> Value {
    claims.as_object_mut().unwrap().insert(name.to_string(), member);
    claims
}

#[test]
fn optional_claims_must_be_strings() {
    let platform = Platform::new();
    let base = claims("aruna", None, None, FAR_FUTURE);
    let number = with_member(base.clone(), "uid", Value::Number(Number::from(7)));
    assert_eq!(read_claims(&number), None);
    let token = platform_token(Some("1"), &platform.server, &number);
    assert_eq!(platform.handler().process_token(&token), Err(CredentialError::MalformedCredential));
    let list = with_member(base.clone(), "tid", Value::Array(vec![]));
    assert_eq!(read_claims(&list), None);
    let token = platform_token(Some("1"), &platform.server, &list);
    assert_eq!(platform.handler().process_token(&token), Err(CredentialError::MalformedCredential));
    let flag = with_member(base.clone(), "uid", Value::Bool(false));
    assert_eq!(verified_claims(Ok(flag)), Err(CredentialError::MalformedCredential));
    let null = with_member(with_member(base.clone(), "uid", Value::Null), "tid", Value::String(TOKEN_ULID.to_string()));
    assert_eq!(read_claims(&null).map(|c| (c.uid, c.tid)), Some((None, Some(TOKEN_ULID.to_string()))));
    let token = platform_token(Some("1"), &platform.server, &null);
    assert_eq!(
        platform.handler().process_token(&token),
        Ok(Progress::Validated((None, Some(TOKEN_ID), false)))
    );
}

#[test]
fn optional_members_are_read() {
    let document = with_member(
        with_member(claims("aruna", Some(USER_ULID), None, 1), "nothing", Value::Null),
        "count",
        Value::Number(Number::from(3)),
    );
    assert_eq!(read_optional(&document, "uid"), Some(Some(USER_ULID.to_string())));
    assert_eq!(read_optional(&document, "tid"), Some(None));
    assert_eq!(read_optional(&document, "nothing"), Some(None));
    assert_eq!(read_optional(&document, "count"), None);
    assert_eq!(read_optional(&Value::Bool(true), "uid"), Some(None));
}

#[test]
fn platform_key_is_the_one_the_token_names() {
    let platform = Platform::new();
    let h = platform.handler();
    let body = claims("aruna", None, None, FAR_FUTURE);
    let server = platform_token(Some("1"), &platform.server, &body);
    assert_eq!(h.platform_key(&server), Ok((&platform.server.public_pem(), false)));
    let proxy = platform_token(Some("2"), &platform.server, &body);
    assert_eq!(h.platform_key(&proxy), Ok((&platform.proxy.public_pem(), true)));
    let unknown = platform_token(Some("3"), &platform.server, &body);
    assert_eq!(h.platform_key(&unknown), Err(CredentialError::KeyNotFound));
    let unnamed = platform_token(None, &platform.server, &body);
    assert_eq!(h.platform_key(&unnamed), Err(CredentialError::MalformedCredential));
    let worded = platform_token(Some("first"), &platform.server, &body);
    assert_eq!(h.platform_key(&worded), Err(CredentialError::MalformedCredential));
    assert_eq!(h.platform_key("no token"), Err(CredentialError::MalformedCredential));
    let mut broken = platform.handler();
    broken.update_pubkey(1, PubKey::Server("no key".to_string()));
    assert_eq!(broken.platform_key(&server), Ok((&"no key".to_string(), false)));
}

#[test]
fn slot_holds_the_installed_key() {
    let platform = Platform::new();
    let realm = TestKey::rsa();
    let other = TestKey::rsa();
    let framed = |key: &TestKey| format!("{}\n{}\n{}", "-----BEGIN PUBLIC KEY-----", key.public_body(), "-----END PUBLIC KEY-----");
    let mut h = platform.handler();
    assert_eq!(h.cached_realm_pem(), None);
    assert_eq!(h.install_realm_key(&realm_document(&realm)), Ok(()));
    assert_eq!(h.cached_realm_pem(), Some(&framed(&realm)));
    assert_eq!(h.install_realm_key(b"not json"), Err(CredentialError::KeyFetchFailed));
    assert_eq!(h.install_realm_key(b"{\"public_key\":\"AAAA\"}"), Err(CredentialError::KeyFetchFailed));
    assert_eq!(h.cached_realm_pem(), Some(&framed(&realm)));
    h.update_pubkey(7, PubKey::Server(platform.server.public_pem()));
    h.remove_pubkey(1);
    assert_eq!(h.cached_realm_pem(), Some(&framed(&realm)));
    let token = provider_token(&realm, &claims("oidc.test.com", Some(USER_ULID), None, FAR_FUTURE));
    assert_eq!(h.process_token(&token), Ok(Progress::Validated((Some(USER_ID), None, false))));
    assert_eq!(h.install_realm_key(&realm_document(&other)), Ok(()));
    assert_eq!(h.cached_realm_pem(), Some(&framed(&other)));
    assert_eq!(h.process_token(&token), Err(CredentialError::InvalidSignature));
    h.evict_realm_key();
    assert_eq!(h.cached_realm_pem(), None);
    assert_eq!(h.process_token(&token), Ok(Progress::NeedRealmKey));
}

#[test]
fn keys_are_made_of_short_pem_texts_only() {
    let ed = TestKey::ed25519();
    let rsa = TestKey::rsa();
    assert!(ed_key_of(&ed.public_pem()).is_some());
    assert!(rsa_key_of(&rsa.public_pem()).is_some());
    assert!(ed_key_of(&rsa.public_pem()).is_none());
    assert!(rsa_key_of(&ed.public_pem()).is_none());
    assert!(ed_key_of(&"".to_string()).is_none());
    let padding = "\n".repeat(4096);
    let long_ed = format!("{}{}", ed.public_pem(), padding);
    let long_rsa = format!("{}{}", rsa.public_pem(), padding);
    assert!(ed_key_of(&long_ed).is_none());
    assert!(rsa_key_of(&long_rsa).is_none());
    let platform = Platform::new();
    let mut h = platform.handler();
    h.update_pubkey(1, PubKey::Server(format!("{}{}", platform.server.public_pem(), padding)));
    let token = platform_token(Some("1"), &platform.server, &claims("aruna", None, None, FAR_FUTURE));
    assert_eq!(h.process_token(&token), Err(CredentialError::KeyNotFound));
}
