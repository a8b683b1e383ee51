//! Turning the `Authorization` header of a request into verified claims, or
//! into a rejection before any handler runs.

use vstd::prelude::*;
use crate::claim::Claim;
use crate::errors::{BAD_REQUEST, UNAUTHORIZED, HttpError};
use crate::token::{hs256_decoded, verdict, verify_bytes, Token};

verus! {

/// Why a request's credentials were refused.
#[derive(PartialEq, Eq, Structural, Clone, Copy, Debug)]
pub enum AuthError {
    NoHeader,
    InvalidHeader,
    NoBearerToken,
    TokenInvalid,
}

/// A byte that a header value may hold as text: visible ASCII or a tab.
pub open spec fn is_header_text_byte(b: u8) -> bool {
    (32 <= b && b < 127) || b == 9
}

pub open spec fn is_header_text(h: Seq<u8>) -> bool {
    forall|i: int| 0 <= i < h.len() ==> is_header_text_byte(#[trigger] h[i])
}

/// `Bearer `
pub open spec fn bearer_prefix() -> Seq<u8> {
    seq![66u8, 101, 97, 114, 101, 114, 32]
}

/// The token that a header carries, or why it carries none.
pub open spec fn bearer_of(header: Option<Seq<u8>>) -> Result<Seq<u8>, AuthError> {
    match header {
        None => Err(AuthError::NoHeader),
        Some(h) => if !is_header_text(h) {
            Err(AuthError::InvalidHeader)
        } else if h.len() < 7 || h.subrange(0, 7) != bearer_prefix() {
            Err(AuthError::NoBearerToken)
        } else {
            Ok(h.subrange(7, h.len() as int))
        },
    }
}

pub open spec fn view_header(header: Option<&[u8]>) -> Option<Seq<u8>> {
    match header {
        Some(h) => Some(h@),
        None => None,
    }
}

fn header_is_text(h: &[u8]) -> (r: bool)
    ensures
        r == is_header_text(h@),
{
    let mut i: usize = 0;
    while i < h.len()
        invariant
            0 <= i <= h@.len(),
            forall|k: int| 0 <= k < i ==> is_header_text_byte(#[trigger] h@[k]),
        decreases h@.len() - i,
    {
        let b = h[i];
        if !((32 <= b && b < 127) || b == 9) {
            return false;
        }
        i = i + 1;
    }
    true
}

fn has_bearer_prefix(h: &[u8]) -> (r: bool)
    ensures
        r == (h@.len() >= 7 && h@.subrange(0, 7) == bearer_prefix()),
{
    if h.len() < 7 {
        return false;
    }
    let ok = h[0] == 66 && h[1] == 101 && h[2] == 97 && h[3] == 114 && h[4] == 101 && h[5] == 114
        && h[6] == 32;
    proof {
        if ok {
            assert(h@.subrange(0, 7) =~= bearer_prefix());
        } else {
            assert(h@.subrange(0, 7)[0] == h@[0]);
            assert(h@.subrange(0, 7)[1] == h@[1]);
            assert(h@.subrange(0, 7)[2] == h@[2]);
            assert(h@.subrange(0, 7)[3] == h@[3]);
            assert(h@.subrange(0, 7)[4] == h@[4]);
            assert(h@.subrange(0, 7)[5] == h@[5]);
            assert(h@.subrange(0, 7)[6] == h@[6]);
        }
    }
    ok
}

/// The bearer token of an `Authorization` header value, checked in order:
/// present, text, `Bearer ` scheme.
pub fn bearer_token(header: Option<&[u8]>) -> (r: Result<Vec<u8>, AuthError>)
    ensures
        match r {
            Ok(t) => bearer_of(view_header(header)) == Ok::<Seq<u8>, AuthError>(t@),
            Err(e) => bearer_of(view_header(header)) == Err::<Seq<u8>, AuthError>(e),
        },
{
    match header {
        None => Err(AuthError::NoHeader),
        Some(h) => {
            if !header_is_text(h) {
                return Err(AuthError::InvalidHeader);
            }
            if !has_bearer_prefix(h) {
                return Err(AuthError::NoBearerToken);
            }
            let mut t: Vec<u8> = Vec::new();
            let mut i: usize = 7;
            while i < h.len()
                invariant
                    7 <= i <= h@.len(),
                    t@ == h@.subrange(7, i as int),
                decreases h@.len() - i,
            {
                t.push(h[i]);
                i = i + 1;
                assert(t@ =~= h@.subrange(7, i as int));
            }
            Ok(t)
        },
    }
}

/// Authenticates a request from its `Authorization` header value, with the
/// signing secret `key`, at time `now`. Every token failure is reported alike.
pub fn authenticate(header: Option<&[u8]>, key: &[u8], now: u64) -> (r: Result<
    Token<Claim<Vec<u8>>>,
    AuthError,
>)
    ensures
        match bearer_of(view_header(header)) {
            Err(e) => r == Err::<Token<Claim<Vec<u8>>>, AuthError>(e),
            Ok(t) => match hs256_decoded(t, key@) {
                Err(_) => r == Err::<Token<Claim<Vec<u8>>>, AuthError>(AuthError::TokenInvalid),
                Ok(claims) => match verdict(claims, now) {
                    Ok((exp, data)) => r is Ok && r->Ok_0.0.spec_exp() == exp
                        && r->Ok_0.0.spec_data()@ == data,
                    Err(_) => r == Err::<Token<Claim<Vec<u8>>>, AuthError>(AuthError::TokenInvalid),
                },
            },
        },
{
    let t = match bearer_token(header) {
        Ok(t) => t,
        Err(e) => {
            return Err(e);
        },
    };
    match verify_bytes(t.as_slice(), key, now) {
        Ok(token) => Ok(token),
        Err(_) => Err(AuthError::TokenInvalid),
    }
}

impl HttpError {
    /// The client-facing error for a refused credential.
    pub fn from_auth(e: AuthError) -> (r: HttpError)
        ensures
            r == HttpError::Simple(
                if e == AuthError::TokenInvalid { UNAUTHORIZED } else { BAD_REQUEST },
                r->Simple_1,
            ),
            r->Simple_1@ == match e {
                AuthError::NoHeader => "no_auth_header"@,
                AuthError::InvalidHeader => "invalid_auth_header"@,
                AuthError::NoBearerToken => "no_bearer_specified"@,
                AuthError::TokenInvalid => "invalid_token"@,
            },
    {
        proof {
            reveal_strlit("no_auth_header");
            reveal_strlit("invalid_auth_header");
            reveal_strlit("no_bearer_specified");
            reveal_strlit("invalid_token");
        }
        match e {
            AuthError::NoHeader => HttpError::Simple(BAD_REQUEST, "no_auth_header".to_owned()),
            AuthError::InvalidHeader => HttpError::Simple(BAD_REQUEST, "invalid_auth_header".to_owned()),
            AuthError::NoBearerToken => HttpError::Simple(BAD_REQUEST, "no_bearer_specified".to_owned()),
            AuthError::TokenInvalid => HttpError::Simple(UNAUTHORIZED, "invalid_token".to_owned()),
        }
    }
}

/// The three ways a header can fail before any token is read are told apart,
/// and none of them is taken for a token failure.
pub proof fn lemma_header_rejections_distinct(h: Seq<u8>)
    ensures
        bearer_of(None) == Err::<Seq<u8>, AuthError>(AuthError::NoHeader),
        !is_header_text(h) ==> bearer_of(Some(h)) == Err::<Seq<u8>, AuthError>(
            AuthError::InvalidHeader,
        ),
        is_header_text(h) && !(h.len() >= 7 && h.subrange(0, 7) == bearer_prefix())
            ==> bearer_of(Some(h)) == Err::<Seq<u8>, AuthError>(AuthError::NoBearerToken),
        AuthError::NoHeader != AuthError::InvalidHeader,
        AuthError::NoHeader != AuthError::NoBearerToken,
        AuthError::InvalidHeader != AuthError::NoBearerToken,
{
}

} // verus!
