//! Signing and verification of claim envelopes as HS256 tokens.

use vstd::prelude::*;
use jsonwebtoken::{Algorithm, DecodingKey, EncodingKey, Header, Validation};
use serde_json::value::RawValue;
use vstd::string::StringSliceAdditionalSpecFns;
use crate::claim::Claim;
use vstd::utf8::is_ascii_chars;
use crate::envelope::{envelope_of, lemma_envelope_injective, open, seal};
use crate::errors::HttpError;

verus! {

/// jsonwebtoken's error, carried unopened from signing: every such failure
/// becomes `bad_jwt`.
#[verifier::external_type_specification]
#[verifier::external_body]
pub struct ExJwtError(jsonwebtoken::errors::Error);

/// Whether serde_json reads a text as exactly one JSON value.
pub uninterp spec fn json_value(text: Seq<u8>) -> bool;

/// The token that jsonwebtoken makes of a claims text under a key, with the
/// default HS256 header.
pub uninterp spec fn hs256_token(claims: Seq<u8>, key: Seq<u8>) -> Seq<char>;

/// What jsonwebtoken finds in a token under a key: the claims text when the
/// token is well formed and its HS256 signature matches; else whether the
/// failure was a signature that does not match (`true`) or anything else.
pub uninterp spec fn hs256_decoded(token: Seq<u8>, key: Seq<u8>) -> Result<Seq<u8>, bool>;

/// The number of `.` separators in a text.
pub open spec fn dot_count(s: Seq<u8>) -> nat
    decreases s.len(),
{
    if s.len() == 0 {
        0
    } else {
        dot_count(s.drop_last()) + if s.last() == 46 {
            1nat
        } else {
            0nat
        }
    }
}

/// The bytes of an ASCII text.
pub open spec fn ascii_bytes(s: Seq<char>) -> Seq<u8> {
    Seq::new(s.len(), |i: int| s[i] as u8)
}

/// Relies on `serde_json::from_slice` into a `RawValue` and on
/// `jsonwebtoken::encode` with the default (HS256) header and an HMAC secret:
/// the call fails exactly when the claims are not one JSON value; the token
/// depends on the claims and the key alone, and is base64url text and dots.
/// The claims are signed byte for byte.
#[verifier::external_body]
fn hs256_encode(claims: &[u8], key: &[u8]) -> (r: Result<String, jsonwebtoken::errors::Error>)
    ensures
        r is Ok <==> json_value(claims@),
        r is Ok ==> r->Ok_0@ == hs256_token(claims@, key@) && is_ascii_chars(r->Ok_0@),
{
    let raw: Box<RawValue> = serde_json::from_slice(claims)?;
    jsonwebtoken::encode(&Header::default(), &raw, &EncodingKey::from_secret(key))
}

/// Relies on `serde_json::from_slice` into a `RawValue`: whether the text
/// is exactly one JSON value.
#[verifier::external_body]
fn is_json_value(text: &[u8]) -> (r: bool)
    ensures
        r == json_value(text@),
{
    serde_json::from_slice::<Box<RawValue>>(text).is_ok()
}

/// Relies on `jsonwebtoken::decode` for HS256 with no claim required and the
/// expiry not checked (the caller checks it against its own clock), the
/// claims read as serde_json's `RawValue`, and on `Error::kind` to tell a
/// signature mismatch apart. The outcome depends on the token and the key
/// alone; a token with fewer than two `.` fails before any signature check;
/// and a token that `hs256_encode` made under the same key of an envelope
/// whose payload is itself one JSON value gives that envelope back byte for
/// byte: such an envelope has exactly the members `exp` and `data`, so no
/// `aud` or repeated member reaches jsonwebtoken's claim checks.
#[verifier::external_body]
fn hs256_decode(token: &[u8], key: &[u8]) -> (r: Result<Vec<u8>, bool>)
    ensures
        match r {
            Ok(c) => hs256_decoded(token@, key@) == Ok::<Seq<u8>, bool>(c@),
            Err(m) => hs256_decoded(token@, key@) == Err::<Seq<u8>, bool>(m),
        },
        dot_count(token@) < 2 ==> r is Err && !r->Err_0,
        forall|exp: u64, data: Seq<u8>|
            json_value(data) && json_value(envelope_of(exp, data)) && token@ == ascii_bytes(
                #[trigger] hs256_token(envelope_of(exp, data), key@),
            ) ==> r is Ok && r->Ok_0@ == envelope_of(exp, data),
{
    let token = String::from_utf8_lossy(token);
    let mut validation = Validation::new(Algorithm::HS256);
    validation.validate_exp = false;
    validation.required_spec_claims.clear();
    match jsonwebtoken::decode::<Box<RawValue>>(&token, &DecodingKey::from_secret(key), &validation) {
        Ok(data) => Ok(data.claims.get().as_bytes().to_vec()),
        Err(e) => Err(matches!(e.kind(), jsonwebtoken::errors::ErrorKind::InvalidSignature)),
    }
}

/// Why a token was not accepted.
#[derive(PartialEq, Eq, Structural, Clone, Copy, Debug)]
pub enum TokenError {
    Malformed,
    SignatureInvalid,
    Expired,
}

/// What a verified claims text gives at time `now`: its expiry and payload
/// while it has not expired, `Expired` from its expiry on, and `Malformed`
/// when it is no envelope.
pub open spec fn verdict(claims: Seq<u8>, now: u64) -> Result<(u64, Seq<u8>), TokenError> {
    if exists|exp: u64, data: Seq<u8>| claims == envelope_of(exp, data) {
        let (exp, data) = choose|exp: u64, data: Seq<u8>| claims == envelope_of(exp, data);
        if now < exp {
            Ok((exp, data))
        } else {
            Err(TokenError::Expired)
        }
    } else {
        Err(TokenError::Malformed)
    }
}

pub open spec fn matches_verdict(r: Result<Claim<Vec<u8>>, TokenError>, v: Result<(u64, Seq<u8>), TokenError>) -> bool {
    match r {
        Ok(c) => v == Ok::<(u64, Seq<u8>), TokenError>((c.spec_exp(), c.spec_data()@)),
        Err(e) => v == Err::<(u64, Seq<u8>), TokenError>(e),
    }
}

/// The verdict on the text of a given envelope.
pub proof fn lemma_verdict_of_envelope(exp: u64, data: Seq<u8>, now: u64)
    ensures
        verdict(envelope_of(exp, data), now) == if now < exp {
            Ok::<(u64, Seq<u8>), TokenError>((exp, data))
        } else {
            Err(TokenError::Expired)
        },
{
    let claims = envelope_of(exp, data);
    assert(exists|e: u64, d: Seq<u8>| claims == envelope_of(e, d));
    let (e, d) = choose|e: u64, d: Seq<u8>| claims == envelope_of(e, d);
    lemma_envelope_injective(e, d, exp, data);
}

/// Checks a claims text that passed the signature check against time `now`.
pub fn check_claims(claims: &[u8], now: u64) -> (r: Result<Claim<Vec<u8>>, TokenError>)
    ensures
        matches_verdict(r, verdict(claims@, now)),
{
    match open(claims) {
        Some(c) => {
            proof {
                lemma_verdict_of_envelope(c.spec_exp(), c.spec_data()@, now);
            }
            if c.is_expired_at(now) {
                Err(TokenError::Expired)
            } else {
                Ok(c)
            }
        },
        None => Err(TokenError::Malformed),
    }
}

pub open spec fn token_matches(r: Result<Token<Claim<Vec<u8>>>, TokenError>, v: Result<(u64, Seq<u8>), TokenError>) -> bool {
    match r {
        Ok(t) => matches_verdict(Ok(t.0), v),
        Err(e) => matches_verdict(Err(e), v),
    }
}

/// Whether `token` is what signing the envelope of `exp` and `data` under
/// `key` gave.
pub open spec fn issued_token(token: Seq<u8>, key: Seq<u8>, exp: u64, data: Seq<u8>) -> bool {
    &&& json_value(data)
    &&& json_value(envelope_of(exp, data))
    &&& token == ascii_bytes(hs256_token(envelope_of(exp, data), key))
}

/// What verifying `token` with `key` at `now` gives: the verdict on the
/// claims text when the signature holds, `SignatureInvalid` on a mismatch,
/// `Malformed` on any other failure (among them a token without two `.`);
/// and for a token issued under the same key, the verdict on its envelope.
pub open spec fn verifies_as(
    token: Seq<u8>,
    key: Seq<u8>,
    now: u64,
    r: Result<Token<Claim<Vec<u8>>>, TokenError>,
) -> bool {
    &&& match hs256_decoded(token, key) {
        Ok(claims) => token_matches(r, verdict(claims, now)),
        Err(true) => r == Err::<Token<Claim<Vec<u8>>>, TokenError>(TokenError::SignatureInvalid),
        Err(false) => r == Err::<Token<Claim<Vec<u8>>>, TokenError>(TokenError::Malformed),
    }
    &&& dot_count(token) < 2 ==> r == Err::<Token<Claim<Vec<u8>>>, TokenError>(TokenError::Malformed)
    &&& forall|exp: u64, data: Seq<u8>| #[trigger]
        issued_token(token, key, exp, data) ==> token_matches(r, verdict(envelope_of(exp, data), now))
}

/// Verification depends on its own token, key and clock alone, so
/// verifications running side by side cannot mix their results: any two
/// outcomes for the same inputs agree on acceptance, on the claims accepted,
/// and on expiry.
pub proof fn lemma_verification_determined(
    token: Seq<u8>,
    key: Seq<u8>,
    now: u64,
    r1: Result<Token<Claim<Vec<u8>>>, TokenError>,
    r2: Result<Token<Claim<Vec<u8>>>, TokenError>,
)
    requires
        verifies_as(token, key, now, r1),
        verifies_as(token, key, now, r2),
    ensures
        r1 is Ok <==> r2 is Ok,
        r1 is Ok ==> r1->Ok_0.0.spec_exp() == r2->Ok_0.0.spec_exp() && r1->Ok_0.0.spec_data()@
            == r2->Ok_0.0.spec_data()@,
        r1 is Err ==> r2 is Err && r1->Err_0 == r2->Err_0,
{
}

/// A token issued at `issued` with lifetime `ttl` (so that `Claim::from`
/// gives it the expiry `issued + ttl` and `Token::generate` signs its
/// envelope), verified under the same key at `now`: its own payload and
/// expiry for every `now` in `[issued, issued + ttl)`, and `Expired` for
/// every `now` from `issued + ttl` on.
pub proof fn lemma_issued_token_lifetime(
    payload: Seq<u8>,
    issued: u64,
    ttl: u64,
    key: Seq<u8>,
    token: Seq<char>,
    now: u64,
    r: Result<Token<Claim<Vec<u8>>>, TokenError>,
)
    requires
        ttl > 0,
        issued + ttl <= u64::MAX,
        json_value(payload),
        json_value(envelope_of((issued + ttl) as u64, payload)),
        token == hs256_token(envelope_of((issued + ttl) as u64, payload), key),
        verifies_as(ascii_bytes(token), key, now, r),
    ensures
        issued <= now < issued + ttl ==> r is Ok && r->Ok_0.0.spec_exp() == issued + ttl
            && r->Ok_0.0.spec_data()@ == payload,
        now >= issued + ttl ==> r == Err::<Token<Claim<Vec<u8>>>, TokenError>(TokenError::Expired),
{
    let exp = (issued + ttl) as u64;
    assert(issued_token(ascii_bytes(token), key, exp, payload));
    lemma_verdict_of_envelope(exp, payload, now);
}

/// Any number of verifications side by side, each of a token issued under
/// `key` and unexpired at `now`: each gives back its own token's payload and
/// expiry, whatever the others verify.
pub proof fn lemma_independent_verifications(
    tokens: Seq<Seq<u8>>,
    exps: Seq<u64>,
    payloads: Seq<Seq<u8>>,
    key: Seq<u8>,
    now: u64,
    results: Seq<Result<Token<Claim<Vec<u8>>>, TokenError>>,
)
    requires
        exps.len() == tokens.len(),
        payloads.len() == tokens.len(),
        results.len() == tokens.len(),
        forall|i: int|
            0 <= i < tokens.len() ==> issued_token(tokens[i], key, exps[i], payloads[i]) && now
                < exps[i] && verifies_as(tokens[i], key, now, #[trigger] results[i]),
    ensures
        forall|i: int|
            0 <= i < results.len() ==> (#[trigger] results[i]) is Ok && results[i]->Ok_0.0.spec_exp()
                == exps[i] && results[i]->Ok_0.0.spec_data()@ == payloads[i],
{
    assert forall|i: int| 0 <= i < results.len() implies (#[trigger] results[i]) is Ok
        && results[i]->Ok_0.0.spec_exp() == exps[i] && results[i]->Ok_0.0.spec_data()@
        == payloads[i] by {
        lemma_verdict_of_envelope(exps[i], payloads[i], now);
        assert(issued_token(tokens[i], key, exps[i], payloads[i]));
    }
}

/// A verified claim, as handed to a request handler.
pub struct Token<T>(pub T);

impl Token<Claim<Vec<u8>>> {
    /// Signs a claim with the secret `key`; a payload that is not one JSON
    /// value is refused, so every token issued is one that verifies.
    pub fn generate(item: &Claim<Vec<u8>>, key: &[u8]) -> (r: Result<String, HttpError>)
        ensures
            r is Ok <==> json_value(item.spec_data()@) && json_value(
                envelope_of(item.spec_exp(), item.spec_data()@),
            ),
            match r {
                Ok(t) => t@ == hs256_token(envelope_of(item.spec_exp(), item.spec_data()@), key@)
                    && is_ascii_chars(t@),
                Err(e) => e == HttpError::Simple(500, e->Simple_1) && e->Simple_1@ == "bad_jwt"@,
            },
    {
        if !is_json_value(item.data().as_slice()) {
            return Err(HttpError::bad_jwt());
        }
        let text = seal(item);
        match hs256_encode(text.as_slice(), key) {
            Ok(t) => Ok(t),
            Err(_) => Err(HttpError::bad_jwt()),
        }
    }

    /// Verifies a token with the secret `key` at time `now`: its structure and
    /// signature, then its expiry. Nothing is accepted in part.
    pub fn from(token: &str, key: &[u8], now: u64) -> (r: Result<Token<Claim<Vec<u8>>>, TokenError>)
        ensures
            verifies_as(token.spec_bytes(), key@, now, r),
            is_ascii_chars(token@) ==> token.spec_bytes() == ascii_bytes(token@),
    {
        proof {
            if is_ascii_chars(token@) {
                vstd::string::is_ascii_spec_bytes(token);
                assert(token.spec_bytes() =~= ascii_bytes(token@));
            }
        }
        verify_bytes(token.as_bytes(), key, now)
    }
}

/// `Token::from` on the bytes of a token.
pub fn verify_bytes(token: &[u8], key: &[u8], now: u64) -> (r: Result<Token<Claim<Vec<u8>>>, TokenError>)
    ensures
        verifies_as(token@, key@, now, r),
{
    let decoded = hs256_decode(token, key);
    let r = match decoded {
        Ok(claims) => match check_claims(claims.as_slice(), now) {
            Ok(c) => Ok(Token(c)),
            Err(e) => Err(e),
        },
        Err(true) => Err(TokenError::SignatureInvalid),
        Err(false) => Err(TokenError::Malformed),
    };
    proof {
        assert forall|exp: u64, data: Seq<u8>| #[trigger]
            issued_token(token@, key@, exp, data) implies token_matches(
            r,
            verdict(envelope_of(exp, data), now),
        ) by {
            assert(json_value(data) && json_value(envelope_of(exp, data)) && token@ == ascii_bytes(
                hs256_token(envelope_of(exp, data), key@),
            ));
        }
    }
    r
}

} // verus!
