use users_auth::claim::Claim;
use users_auth::errors::HttpError;
use users_auth::token::{check_claims, verify_bytes, Token, TokenError};

const KEY: &[u8] = b"test-secret";

fn issue(payload: &[u8], issued: u64, ttl: u64) -> String {
    let c = Claim::from(payload.to_vec(), issued, ttl);
    match Token::generate(&c, KEY) {
        Ok(t) => t,
        Err(_) => panic!("signing failed"),
    }
}

fn payload_at(token: &str, now: u64) -> Result<(u64, Vec<u8>), TokenError> {
    Token::from(token, KEY, now).map(|t| (t.0.exp(), t.0.data().clone()))
}

#[test]
fn concrete_issue_and_verify() {
    let s = issue(br#"{"userId":"u1"}"#, 1000, 7200);
    assert_eq!(payload_at(&s, 1000), Ok((8200, br#"{"userId":"u1"}"#.to_vec())));
    assert_eq!(payload_at(&s, 8200), Err(TokenError::Expired));
    assert_eq!(payload_at("garbage", 1000), Err(TokenError::Malformed));
}

#[test]
fn token_is_a_compact_jwt() {
    let s = issue(br#"{"userId":"u1"}"#, 1000, 7200);
    assert_eq!(s.split('.').count(), 3);
    assert!(!s.contains("userId"));
    assert_eq!(s, issue(br#"{"userId":"u1"}"#, 1000, 7200));
}

#[test]
fn valid_through_lifetime_then_expired() {
    let p = br#"{"user_id":"abc","name":"Ada","surname":"L","propic_url":null}"#;
    let s = issue(p, 500, 60);
    for now in [500, 501, 530, 559] {
        assert_eq!(payload_at(&s, now), Ok((560, p.to_vec())));
    }
    for now in [560, 561, 100000, u64::MAX] {
        assert_eq!(payload_at(&s, now), Err(TokenError::Expired));
    }
}

#[test]
fn single_character_flip_is_rejected() {
    let s = issue(br#"{"userId":"u1"}"#, 1000, 7200);
    let bytes = s.as_bytes();
    for i in 0..bytes.len() {
        let mut flipped = bytes.to_vec();
        flipped[i] = if flipped[i] == b'A' { b'B' } else { b'A' };
        let r = verify_bytes(&flipped, KEY, 1000);
        assert!(r.is_err(), "flip at {} accepted", i);
        assert!(matches!(r, Err(TokenError::Malformed) | Err(TokenError::SignatureInvalid)));
    }
}

#[test]
fn wrong_key_is_signature_invalid() {
    let s = issue(br#"{"userId":"u1"}"#, 1000, 7200);
    let r = Token::from(&s, b"another-secret", 1000);
    assert!(matches!(r, Err(TokenError::SignatureInvalid)));
}

#[test]
fn foreign_claims_are_malformed() {
    // A correctly signed token whose claims are not an envelope.
    let c = Claim::from(b"1".to_vec(), 0, 10);
    let s = Token::generate(&c, KEY).ok().unwrap();
    assert!(Token::from(&s, KEY, 0).is_ok());
    let parts: Vec<&str> = s.split('.').collect();
    let forged = format!("{}.{}.{}", parts[0], "eyJleHAiOjV9", parts[2]);
    assert!(Token::from(&forged, KEY, 0).is_err());
}

#[test]
fn distinct_tokens_keep_their_payloads() {
    let tokens: Vec<(String, Vec<u8>)> = (0..8u64)
        .map(|i| {
            let p = format!(r#"{{"userId":"u{}"}}"#, i).into_bytes();
            (issue(&p, 100 + i, 1000), p)
        })
        .collect();
    for (i, (t, p)) in tokens.iter().enumerate().rev() {
        assert_eq!(payload_at(t, 200), Ok((1100 + i as u64, p.clone())));
    }
}

#[test]
fn invalid_payload_json_is_not_signed() {
    let c = Claim::from(b"{not json".to_vec(), 0, 10);
    match Token::generate(&c, KEY) {
        Err(HttpError::Simple(500, msg)) => assert_eq!(msg, "bad_jwt"),
        _ => panic!("expected bad_jwt"),
    }
}

#[test]
fn checks_claims_text_against_clock() {
    let text = br#"{"exp":10,"data":"x"}"#;
    let ok = check_claims(text, 9).ok().unwrap();
    assert_eq!((ok.exp(), ok.data().clone()), (10, br#""x""#.to_vec()));
    assert!(matches!(check_claims(text, 10), Err(TokenError::Expired)));
    assert!(matches!(check_claims(b"{}", 0), Err(TokenError::Malformed)));
}

#[test]
fn too_few_separators_are_malformed() {
    for t in ["", "abc", "a.b", "eyJ0eXAiOiJKV1QifQ.e30"] {
        assert_eq!(payload_at(t, 0), Err(TokenError::Malformed));
    }
}

#[test]
fn payload_must_be_one_json_value() {
    for p in [&br#"0,"aud":"x""#[..], &br#"0,"exp":1"#[..], &b""[..], &b"1 2"[..]] {
        let c = Claim::from(p.to_vec(), 0, 10);
        assert!(Token::generate(&c, KEY).is_err());
    }
    let c = Claim::from(b" [1, 2] ".to_vec(), 0, 10);
    let s = Token::generate(&c, KEY).ok().unwrap();
    assert_eq!(payload_at(&s, 5), Ok((10, b" [1, 2] ".to_vec())));
}
