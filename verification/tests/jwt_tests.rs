use allforone::ids::parse_id;
use allforone::jwt::{Claims, IssueError, JwtIssuer};
use allforone::keys::{
    adopt_document, key_file_path, key_file_step, write_generated, JwtKeyPair, KeyError,
    KeyFileAction, KeyFileEvent, KeyFileState,
};

const KID_A: u128 = 0x13f03b9f_f209_4dcd_86f0_69cc19e773eb;
const KID_B: u128 = 0x0190f3a1_7c2e_7b1d_9a55_1f2e3d4c5b6a;
const SUBJECT: u128 = 0x0190f3a1_0000_7000_8000_000000000042;

fn generated_document() -> Vec<u8> {
    let (state, action) = key_file_step(KeyFileState::Start, KeyFileEvent::Begin);
    assert!(matches!(action, KeyFileAction::OpenForRead));
    let (state, action) = key_file_step(state, KeyFileEvent::Missing);
    assert!(matches!(action, KeyFileAction::CreateNew));
    let (state, action) = key_file_step(state, KeyFileEvent::Created);
    match (state, action) {
        (KeyFileState::Writing { pkcs8 }, KeyFileAction::Write { pkcs8: written }) => {
            assert_eq!(pkcs8, written);
            written
        }
        _ => panic!("a created key file must be written next"),
    }
}

fn generated_pair() -> JwtKeyPair {
    JwtKeyPair::from_pkcs8(generated_document()).unwrap()
}

fn issuer_with_two_keys() -> JwtIssuer {
    let mut issuer = JwtIssuer::new("test-issuer".to_string(), "test-audience".to_string());
    issuer.insert_key(KID_A, generated_pair());
    issuer.insert_key(KID_B, generated_pair());
    issuer
}

fn verify_with(token: &str, public_key: &[u8]) -> Result<serde_json::Value, String> {
    let mut validation = jsonwebtoken::Validation::new(jsonwebtoken::Algorithm::EdDSA);
    validation.set_audience(&["test-audience"]);
    validation.set_issuer(&["test-issuer"]);
    jsonwebtoken::decode::<serde_json::Value>(
        token,
        &jsonwebtoken::DecodingKey::from_ed_der(public_key),
        &validation,
    )
    .map(|data| data.claims)
    .map_err(|e| e.to_string())
}

fn decode_x(x: &str) -> Vec<u8> {
    base64::Engine::decode(&base64::prelude::BASE64_URL_SAFE_NO_PAD, x).unwrap()
}

#[test]
fn test_claims_creation() {
    let user_id = uuid::Uuid::now_v7().as_u128();
    let jwt_id = uuid::Uuid::now_v7().as_u128();
    let now = chrono::Utc::now().timestamp();

    let claims = Claims {
        aud: "test-audience".to_string(),
        iss: "test-issuer".to_string(),
        sub: user_id,
        exp: now + 3600,
        jti: jwt_id,
        iat: now,
        nbf: now,
    };

    assert_eq!(claims.aud, "test-audience");
    assert_eq!(claims.iss, "test-issuer");
    assert_eq!(claims.sub, user_id);
    assert_eq!(claims.exp, now + 3600);
    assert_eq!(claims.jti, jwt_id);
    assert_eq!(claims.iat, now);
    assert_eq!(claims.nbf, now);
}

#[test]
fn test_claims_debug() {
    let user_id = uuid::Uuid::now_v7().as_u128();
    let jwt_id = uuid::Uuid::now_v7().as_u128();
    let now = chrono::Utc::now().timestamp();

    let claims = Claims {
        aud: "test-audience".to_string(),
        iss: "test-issuer".to_string(),
        sub: user_id,
        exp: now + 3600,
        jti: jwt_id,
        iat: now,
        nbf: now,
    };

    let debug_str = format!("{:?}", claims);
    assert!(debug_str.contains("test-audience"));
    assert!(debug_str.contains("test-issuer"));
}

#[test]
fn identifiers_are_read_from_their_text() {
    assert_eq!(parse_id("13f03b9f-f209-4dcd-86f0-69cc19e773eb"), Some(KID_A));
    assert_eq!(parse_id("13F03B9F-F209-4DCD-86F0-69CC19E773EB"), Some(KID_A));
    assert_eq!(parse_id("13f03b9ff2094dcd86f069cc19e773eb"), Some(KID_A));
    assert_eq!(parse_id("test-session-id"), None);
    assert_eq!(parse_id(""), None);
}

#[test]
fn key_file_is_named_by_its_kid() {
    assert_eq!(
        key_file_path("./test_jwks", KID_A),
        "./test_jwks/13f03b9f-f209-4dcd-86f0-69cc19e773eb.pem"
    );
}

#[test]
fn stored_key_is_read_and_never_replaced() {
    let document = generated_document();
    let (state, _) = key_file_step(KeyFileState::Start, KeyFileEvent::Begin);
    let (state, action) = key_file_step(state, KeyFileEvent::Read { contents: document.clone() });
    assert!(matches!(state, KeyFileState::Closed));
    let pair = match action {
        KeyFileAction::Use { pair } => pair,
        _ => panic!("a sound key file must be used"),
    };
    let again = JwtKeyPair::from_pkcs8(document).unwrap();
    assert_eq!(pair.public_key(), again.public_key());
    assert_eq!(pair.x(), again.x());
}

#[test]
fn corrupt_key_file_is_fatal() {
    let (state, _) = key_file_step(KeyFileState::Start, KeyFileEvent::Begin);
    let (state, action) =
        key_file_step(state, KeyFileEvent::Read { contents: b"not a key".to_vec() });
    assert!(matches!(state, KeyFileState::Closed));
    assert!(matches!(action, KeyFileAction::Fail { error: KeyError::Rejected }));
    assert_eq!(JwtKeyPair::from_pkcs8(Vec::new()).err(), Some(KeyError::Rejected));
}

#[test]
fn key_file_failures_end_the_protocol() {
    let (state, _) = key_file_step(KeyFileState::Start, KeyFileEvent::Begin);
    let (state, action) = key_file_step(state, KeyFileEvent::ReadFailed);
    assert!(matches!(state, KeyFileState::Closed));
    assert!(matches!(action, KeyFileAction::Fail { error: KeyError::ReadFailed }));

    let (state, _) = key_file_step(KeyFileState::Start, KeyFileEvent::Begin);
    let (state, _) = key_file_step(state, KeyFileEvent::Missing);
    let (state, action) = key_file_step(state, KeyFileEvent::CreateFailed);
    assert!(matches!(state, KeyFileState::Closed));
    assert!(matches!(action, KeyFileAction::Fail { error: KeyError::Unavailable }));

    let (state, _) = key_file_step(KeyFileState::Start, KeyFileEvent::Begin);
    let (state, _) = key_file_step(state, KeyFileEvent::Missing);
    let (state, _) = key_file_step(state, KeyFileEvent::Created);
    let (state, action) = key_file_step(state, KeyFileEvent::WriteFailed);
    assert!(matches!(state, KeyFileState::Closed));
    assert!(matches!(action, KeyFileAction::Fail { error: KeyError::WriteFailed }));

    let (state, action) = key_file_step(KeyFileState::Start, KeyFileEvent::Written);
    assert!(matches!(state, KeyFileState::Closed));
    assert!(matches!(action, KeyFileAction::Fail { error: KeyError::OutOfOrder }));
    let (_, action) = key_file_step(KeyFileState::Closed, KeyFileEvent::Begin);
    assert!(matches!(action, KeyFileAction::Fail { error: KeyError::OutOfOrder }));
}

#[test]
fn written_key_is_taken_into_use() {
    let (state, _) = key_file_step(KeyFileState::Start, KeyFileEvent::Begin);
    let (state, _) = key_file_step(state, KeyFileEvent::Missing);
    let (state, action) = key_file_step(state, KeyFileEvent::Created);
    let written = match action {
        KeyFileAction::Write { pkcs8 } => pkcs8,
        _ => panic!("a created key file must be written next"),
    };
    let (state, action) = key_file_step(state, KeyFileEvent::Written);
    assert!(matches!(state, KeyFileState::Closed));
    match action {
        KeyFileAction::Use { pair } => {
            let reread = JwtKeyPair::from_pkcs8(written).unwrap();
            assert_eq!(pair.public_key(), reread.public_key());
        }
        _ => panic!("a written key must be used"),
    }
}

#[test]
fn generated_keys_differ() {
    assert_ne!(generated_document(), generated_document());
}

#[test]
fn x_is_the_base64url_of_the_public_key() {
    let pair = generated_pair();
    assert_eq!(pair.public_key().len(), 32);
    assert_eq!(pair.x().len(), 43);
    assert_eq!(&decode_x(pair.x()), pair.public_key());
    assert!(!pair.x().contains('='));
}

#[test]
fn current_key_is_the_first_inserted() {
    let issuer = issuer_with_two_keys();
    assert_eq!(issuer.key_count(), 2);
    assert_eq!(issuer.get_kid(), KID_A);
    assert_eq!(issuer.find(KID_A), Some(0));
    assert_eq!(issuer.find(KID_B), Some(1));
    assert_eq!(issuer.find(SUBJECT), None);
}

#[test]
fn inserting_a_held_kid_replaces_its_pair_in_place() {
    let mut issuer = issuer_with_two_keys();
    let replacement = generated_pair();
    let x = replacement.x().clone();
    issuer.insert_key(KID_A, replacement);
    assert_eq!(issuer.key_count(), 2);
    assert_eq!(issuer.get_kid(), KID_A);
    let set = issuer.jwks();
    assert_eq!(set.keys[0].x, x);
    assert_eq!(set.keys[0].kid, "13f03b9f-f209-4dcd-86f0-69cc19e773eb");
}

#[test]
fn issued_token_verifies_with_its_published_key_only() {
    let issuer = issuer_with_two_keys();
    let token = issuer.issue_jwt(KID_A, SUBJECT, 900).unwrap();
    let set = issuer.jwks();
    assert_eq!(set.keys.len(), 2);
    let key_a = decode_x(&set.keys[0].x);
    let key_b = decode_x(&set.keys[1].x);

    let header = jsonwebtoken::decode_header(&token).unwrap();
    assert_eq!(header.kid, Some(set.keys[0].kid.clone()));
    assert_eq!(header.alg, jsonwebtoken::Algorithm::EdDSA);

    let claims = verify_with(&token, &key_a).unwrap();
    assert_eq!(claims["sub"], "0190f3a1-0000-7000-8000-000000000042");
    assert_eq!(parse_id(claims["sub"].as_str().unwrap()), Some(SUBJECT));
    assert!(verify_with(&token, &key_b).is_err());

    let token_b = issuer.issue_jwt(KID_B, SUBJECT, 900).unwrap();
    assert!(verify_with(&token_b, &key_b).is_ok());
    assert!(verify_with(&token_b, &key_a).is_err());
}

#[test]
fn claims_follow_the_time_of_issue() {
    let issuer = issuer_with_two_keys();
    let now = chrono::Utc::now().timestamp();
    let jti = 0x0190f3a1_0000_7000_8000_0000000000aa;
    let token = issuer.issue_jwt_at(KID_B, SUBJECT, 3600, now, jti).unwrap();
    let key_b = decode_x(&issuer.jwks().keys[1].x);
    let claims = verify_with(&token, &key_b).unwrap();
    assert_eq!(claims["aud"], "test-audience");
    assert_eq!(claims["iss"], "test-issuer");
    assert_eq!(claims["sub"], "0190f3a1-0000-7000-8000-000000000042");
    assert_eq!(claims["jti"], "0190f3a1-0000-7000-8000-0000000000aa");
    assert_eq!(claims["iat"], now);
    assert_eq!(claims["nbf"], now);
    assert_eq!(claims["exp"], now + 3600);
    assert_eq!(claims.as_object().unwrap().len(), 7);
}

#[test]
fn issuing_is_a_function_of_time_and_token_id() {
    let issuer = issuer_with_two_keys();
    let first = issuer.issue_jwt_at(KID_A, SUBJECT, 60, 1_700_000_000, 5).unwrap();
    let second = issuer.issue_jwt_at(KID_A, SUBJECT, 60, 1_700_000_000, 5).unwrap();
    let third = issuer.issue_jwt_at(KID_A, SUBJECT, 60, 1_700_000_000, 6).unwrap();
    assert_eq!(first, second);
    assert_ne!(first, third);
    assert_eq!(first.split('.').count(), 3);
}

#[test]
fn fresh_tokens_get_fresh_ids() {
    let issuer = issuer_with_two_keys();
    let before = chrono::Utc::now().timestamp();
    let first = issuer.issue_jwt(KID_A, SUBJECT, 900).unwrap();
    let second = issuer.issue_jwt(KID_A, SUBJECT, 900).unwrap();
    let after = chrono::Utc::now().timestamp();
    assert_ne!(first, second);
    let key_a = decode_x(&issuer.jwks().keys[0].x);
    let claims = verify_with(&first, &key_a).unwrap();
    let iat = claims["iat"].as_i64().unwrap();
    assert!(before <= iat && iat <= after);
    assert_eq!(claims["exp"].as_i64().unwrap(), iat + 900);
    assert_eq!(claims["nbf"].as_i64().unwrap(), iat);
}

#[test]
fn unknown_kid_is_signed_with_the_current_key() {
    let issuer = issuer_with_two_keys();
    let token = issuer.issue_jwt(SUBJECT, SUBJECT, 900).unwrap();
    let set = issuer.jwks();
    assert!(verify_with(&token, &decode_x(&set.keys[0].x)).is_ok());
    assert!(verify_with(&token, &decode_x(&set.keys[1].x)).is_err());
    let header = jsonwebtoken::decode_header(&token).unwrap();
    assert_eq!(header.kid, Some("0190f3a1-0000-7000-8000-000000000042".to_string()));
}

#[test]
fn issuing_fails_without_keys_and_beyond_the_last_timestamp() {
    let empty = JwtIssuer::new("test-issuer".to_string(), "test-audience".to_string());
    assert_eq!(empty.issue_jwt(KID_A, SUBJECT, 900), Err(IssueError::NoKey));
    assert_eq!(empty.issue_jwt_at(KID_A, SUBJECT, 900, 0, 1), Err(IssueError::NoKey));
    assert_eq!(empty.jwks().keys.len(), 0);

    let issuer = issuer_with_two_keys();
    assert_eq!(issuer.issue_jwt_at(KID_A, SUBJECT, 1, i64::MAX, 1), Err(IssueError::Expiry));
    assert_eq!(issuer.issue_jwt_at(KID_A, SUBJECT, -1, i64::MIN, 1), Err(IssueError::Expiry));
    assert_eq!(issuer.issue_jwt(KID_A, SUBJECT, i64::MAX), Err(IssueError::Expiry));
}

#[test]
fn published_keys_hold_public_fields_only() {
    let document = generated_document();
    let pair = JwtKeyPair::from_pkcs8(document.clone()).unwrap();
    let mut issuer = JwtIssuer::new("test-issuer".to_string(), "test-audience".to_string());
    issuer.insert_key(KID_A, pair);
    let set = issuer.jwks();
    assert_eq!(set.keys.len(), 1);
    let key = &set.keys[0];
    assert_eq!(key.kid, "13f03b9f-f209-4dcd-86f0-69cc19e773eb");
    assert_eq!(key.kty, "OKP");
    assert_eq!(key.crv, "Ed25519");
    assert_eq!(key.alg, "EdDSA");
    assert_eq!(key.public_key_use, "sig");
    assert_eq!(key.x.len(), 43);

    let private_text = base64::Engine::encode(&base64::prelude::BASE64_URL_SAFE_NO_PAD, &document);
    let seed_text =
        base64::Engine::encode(&base64::prelude::BASE64_URL_SAFE_NO_PAD, &document[16..48]);
    let shown = format!("{:?}", set);
    assert!(!shown.contains(&private_text));
    assert!(!shown.contains(&seed_text));
    assert_ne!(key.x, seed_text);
    assert!(!shown.contains("\"d\""));
}

#[test]
fn failed_random_source_ends_the_protocol() {
    let (state, action) = write_generated(None);
    assert!(matches!(state, KeyFileState::Closed));
    assert!(matches!(action, KeyFileAction::Fail { error: KeyError::Generation }));

    let (state, action) = write_generated(Some(vec![1, 2, 3]));
    match (state, action) {
        (KeyFileState::Writing { pkcs8 }, KeyFileAction::Write { pkcs8: written }) => {
            assert_eq!(pkcs8, vec![1, 2, 3]);
            assert_eq!(written, vec![1, 2, 3]);
        }
        _ => panic!("a generated document must be written next"),
    }
}

#[test]
fn adopting_a_document_uses_or_rejects_it() {
    let (state, action) = adopt_document(vec![0u8; 48]);
    assert!(matches!(state, KeyFileState::Closed));
    assert!(matches!(action, KeyFileAction::Fail { error: KeyError::Rejected }));

    let (state, action) = adopt_document(generated_document());
    assert!(matches!(state, KeyFileState::Closed));
    assert!(matches!(action, KeyFileAction::Use { .. }));
}

#[test]
fn issuer_is_built_from_documents_in_order() {
    let first = generated_document();
    let second = generated_document();
    let issuer = JwtIssuer::from_documents(
        "test-issuer".to_string(),
        "test-audience".to_string(),
        vec![(KID_A, first.clone()), (KID_B, second.clone())],
    )
    .ok()
    .unwrap();
    assert_eq!(issuer.key_count(), 2);
    assert_eq!(issuer.get_kid(), KID_A);
    let set = issuer.jwks();
    assert_eq!(&set.keys[0].x, JwtKeyPair::from_pkcs8(first).unwrap().x());
    assert_eq!(&set.keys[1].x, JwtKeyPair::from_pkcs8(second).unwrap().x());
    let token = issuer.issue_jwt(KID_B, SUBJECT, 900).unwrap();
    assert!(verify_with(&token, &decode_x(&set.keys[1].x)).is_ok());
}

#[test]
fn repeated_kid_keeps_its_place_and_takes_the_last_document() {
    let first = generated_document();
    let second = generated_document();
    let third = generated_document();
    let issuer = JwtIssuer::from_documents(
        "test-issuer".to_string(),
        "test-audience".to_string(),
        vec![(KID_A, first), (KID_B, second), (KID_A, third.clone())],
    )
    .ok()
    .unwrap();
    assert_eq!(issuer.key_count(), 2);
    assert_eq!(issuer.get_kid(), KID_A);
    assert_eq!(issuer.find(KID_B), Some(1));
    assert_eq!(&issuer.jwks().keys[0].x, JwtKeyPair::from_pkcs8(third).unwrap().x());
}

#[test]
fn issuer_needs_keys_and_sound_documents() {
    let none = JwtIssuer::from_documents("i".to_string(), "a".to_string(), vec![]);
    assert_eq!(none.err(), Some(KeyError::NoKeys));
    let corrupt = JwtIssuer::from_documents(
        "i".to_string(),
        "a".to_string(),
        vec![(KID_A, generated_document()), (KID_B, b"not a key".to_vec())],
    );
    assert_eq!(corrupt.err(), Some(KeyError::Rejected));
}

#[test]
fn published_kids_read_back_as_distinct_key_ids() {
    let issuer = issuer_with_two_keys();
    let set = issuer.jwks();
    assert_eq!(parse_id(&set.keys[0].kid), Some(KID_A));
    assert_eq!(parse_id(&set.keys[1].kid), Some(KID_B));
    assert_ne!(set.keys[0].kid, set.keys[1].kid);
}

#[test]
fn reasonable_lifetimes_never_fail_on_expiry() {
    let issuer = issuer_with_two_keys();
    let bound: i64 = 0x1_0000_0000_0000;
    assert!(issuer.issue_jwt(KID_A, SUBJECT, i64::MAX - bound).is_ok());
    assert!(issuer.issue_jwt(KID_A, SUBJECT, bound - i64::MAX).is_ok());
    assert!(issuer.issue_jwt(KID_A, SUBJECT, 0).is_ok());
    assert!(issuer.issue_jwt(KID_A, SUBJECT, -900).is_ok());
}
