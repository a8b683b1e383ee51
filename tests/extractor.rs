use users_auth::claim::Claim;
use users_auth::errors::HttpError;
use users_auth::extractor::{authenticate, bearer_token, AuthError};
use users_auth::token::Token;

const KEY: &[u8] = b"extractor-secret";

#[test]
fn header_rejections_are_distinct() {
    assert_eq!(bearer_token(None), Err(AuthError::NoHeader));
    assert_eq!(bearer_token(Some(&[66, 0xff, 32][..])), Err(AuthError::InvalidHeader));
    assert_eq!(bearer_token(Some(&b"Bearer a\nb"[..])), Err(AuthError::InvalidHeader));
    assert_eq!(bearer_token(Some(&b"Basic abc"[..])), Err(AuthError::NoBearerToken));
    assert_eq!(bearer_token(Some(&b"bearer abc"[..])), Err(AuthError::NoBearerToken));
    assert_eq!(bearer_token(Some(&b""[..])), Err(AuthError::NoBearerToken));
    assert_eq!(bearer_token(Some(&b"Bearer abc"[..])), Ok(b"abc".to_vec()));
    assert_eq!(bearer_token(Some(&b"Bearer \tx"[..])), Ok(b"\tx".to_vec()));
    assert_eq!(bearer_token(Some(&b"Bearer "[..])), Ok(Vec::new()));
}

#[test]
fn authenticates_bearer_tokens() {
    let c = Claim::from(br#"{"userId":"u1"}"#.to_vec(), 1000, 7200);
    let t = Token::generate(&c, KEY).ok().unwrap();
    let header = format!("Bearer {}", t);
    let ok = authenticate(Some(header.as_bytes()), KEY, 2000).ok().unwrap();
    assert_eq!(ok.0.data(), &br#"{"userId":"u1"}"#.to_vec());
    assert!(matches!(authenticate(Some(header.as_bytes()), KEY, 8200), Err(AuthError::TokenInvalid)));
    assert!(matches!(authenticate(Some(header.as_bytes()), b"x", 2000), Err(AuthError::TokenInvalid)));
    assert!(matches!(authenticate(Some(&b"Bearer garbage"[..]), KEY, 0), Err(AuthError::TokenInvalid)));
    assert!(matches!(authenticate(Some(t.as_bytes()), KEY, 2000), Err(AuthError::NoBearerToken)));
    assert!(matches!(authenticate(None, KEY, 2000), Err(AuthError::NoHeader)));
}

#[test]
fn auth_errors_map_to_client_errors() {
    let cases = [
        (AuthError::NoHeader, 400, "no_auth_header"),
        (AuthError::InvalidHeader, 400, "invalid_auth_header"),
        (AuthError::NoBearerToken, 400, "no_bearer_specified"),
        (AuthError::TokenInvalid, 401, "invalid_token"),
    ];
    for (e, status, code) in cases {
        match HttpError::from_auth(e) {
            HttpError::Simple(s, m) => {
                assert_eq!(s, status);
                assert_eq!(m, code);
            }
            _ => panic!("expected a simple error"),
        }
    }
}
