use users_auth::claim::{parse_secs, ttl_from_setting, Claim, DEFAULT_TTL_SECS};
use users_auth::decimal::{digit_run_end, digits_to_u64, write_decimal};
use users_auth::envelope::{open, seal};

#[test]
fn writes_shortest_decimal() {
    let mut out = Vec::new();
    write_decimal(0, &mut out);
    assert_eq!(out, b"0".to_vec());
    let mut out = b"x".to_vec();
    write_decimal(1234507, &mut out);
    assert_eq!(out, b"x1234507".to_vec());
    let mut out = Vec::new();
    write_decimal(u64::MAX, &mut out);
    assert_eq!(out, b"18446744073709551615".to_vec());
}

#[test]
fn reads_digit_runs() {
    let s = b"ab0123,";
    assert_eq!(digit_run_end(s, 2), 6);
    assert_eq!(digit_run_end(s, 0), 0);
    assert_eq!(digits_to_u64(s, 2, 6), Some(123));
    assert_eq!(digits_to_u64(b"18446744073709551615", 0, 20), Some(u64::MAX));
    assert_eq!(digits_to_u64(b"18446744073709551616", 0, 20), None);
}

#[test]
fn parses_seconds_like_std() {
    assert_eq!(parse_secs(b"7200"), Some(7200));
    assert_eq!(parse_secs(b"+5"), Some(5));
    assert_eq!(parse_secs(b"007"), Some(7));
    assert_eq!(parse_secs(b""), None);
    assert_eq!(parse_secs(b"+"), None);
    assert_eq!(parse_secs(b"-1"), None);
    assert_eq!(parse_secs(b"12a"), None);
    assert_eq!(parse_secs(b" 12"), None);
    assert_eq!(parse_secs(b"99999999999999999999"), None);
    for s in ["0", "42", "+17", "18446744073709551615", "x", "1_0"] {
        assert_eq!(parse_secs(s.as_bytes()), s.parse::<u64>().ok());
    }
}

#[test]
fn ttl_falls_back_to_default() {
    assert_eq!(DEFAULT_TTL_SECS, 7200);
    assert_eq!(ttl_from_setting(None), 7200);
    assert_eq!(ttl_from_setting(Some(b"two hours")), 7200);
    assert_eq!(ttl_from_setting(Some(b"60")), 60);
}

#[test]
fn claim_expires_after_ttl() {
    let c = Claim::from("payload", 1000, 7200);
    assert_eq!(c.exp(), 8200);
    assert_eq!(*c.data(), "payload");
    assert!(!c.is_expired_at(1000));
    assert!(!c.is_expired_at(8199));
    assert!(c.is_expired_at(8200));
    let instant = Claim::from(0u8, 1000, 0);
    assert!(instant.is_expired_at(1000));
    let late = Claim::from(1u8, u64::MAX - 10, 7200);
    assert_eq!(late.exp(), u64::MAX);
}

#[test]
fn seals_envelope_text() {
    let c = Claim::from(br#"{"userId":"u1"}"#.to_vec(), 1000, 7200);
    let text = seal(&c);
    assert_eq!(text, br#"{"exp":8200,"data":{"userId":"u1"}}"#.to_vec());
    let back = open(&text).unwrap();
    assert_eq!(back.exp(), 8200);
    assert_eq!(back.data(), &br#"{"userId":"u1"}"#.to_vec());
}

#[test]
fn opens_only_envelopes() {
    assert!(open(b"garbage").is_none());
    assert!(open(b"").is_none());
    assert!(open(br#"{"exp":,"data":1}"#).is_none());
    assert!(open(br#"{"exp":08,"data":1}"#).is_none());
    assert!(open(br#"{"exp":8,"data":1"#).is_none());
    assert!(open(br#"{"exp":18446744073709551616,"data":1}"#).is_none());
    assert!(open(br#"{"data":1,"exp":8}"#).is_none());
    let zero = open(br#"{"exp":0,"data":}"#).unwrap();
    assert_eq!(zero.exp(), 0);
    assert!(zero.data().is_empty());
}
