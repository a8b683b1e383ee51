//! Password hashing and checking through argon2, with its failures brought
//! into the error model.

use vstd::prelude::*;
use argon2::password_hash::SaltString;
use argon2::{Argon2, PasswordHash, PasswordHasher, PasswordVerifier};
use vstd::string::StringSliceAdditionalSpecFns;
use crate::errors::{HttpError, INTERNAL_SERVER_ERROR};

verus! {

/// The error of the password-hash crate, carried unopened: every such
/// failure becomes an internal error.
#[verifier::external_type_specification]
#[verifier::external_body]
pub struct ExHashError(argon2::password_hash::Error);

/// The PHC string that argon2 with its default parameters makes of a
/// password and a base64 salt.
pub uninterp spec fn argon2_phc(password: Seq<u8>, salt: Seq<char>) -> Seq<char>;

/// Whether argon2 finds that a password matches a PHC string.
pub uninterp spec fn argon2_accepts(password: Seq<u8>, phc: Seq<char>) -> bool;

/// Whether password-hash and argon2 take a text as a salt: 4 to 64
/// characters of the B64 alphabet that decode to at least 8 bytes.
pub uninterp spec fn argon2_salt_ok(salt: Seq<char>) -> bool;

/// Whether password-hash parses a text as a PHC string.
pub uninterp spec fn phc_parses(phc: Seq<char>) -> bool;

/// The most bytes argon2 hashes as a password.
pub const MAX_PASSWORD_BYTES: u64 = 0xFFFF_FFFF;

/// Relies on `SaltString::from_b64` and `PasswordHasher::hash_password` of
/// `Argon2::default()`: with the salt given, the PHC string depends on the
/// password and the salt alone; the call fails only on a salt it does not
/// take or a password over `MAX_PASSWORD_BYTES`; and the string it makes
/// parses and, verified with the same password, matches.
#[verifier::external_body]
fn argon2_hash(password: &[u8], salt: &str) -> (r: Result<String, argon2::password_hash::Error>)
    ensures
        password@.len() <= MAX_PASSWORD_BYTES ==> (r is Ok <==> argon2_salt_ok(salt@)),
        salt@.len() < 4 || salt@.len() > 64 ==> r is Err,
        r is Ok ==> r->Ok_0@ == argon2_phc(password@, salt@),
        r is Ok ==> phc_parses(r->Ok_0@) && argon2_accepts(password@, r->Ok_0@),
{
    let salt = SaltString::from_b64(salt)?;
    Ok(Argon2::default().hash_password(password, &salt)?.to_string())
}

/// Relies on `PasswordHash::new` and `PasswordVerifier::verify_password` of
/// `Argon2::default()`: the call fails exactly when the text is no PHC string
/// (an empty text, or one not starting with `$`, never is), and whether the
/// password matches depends on the password and the PHC string alone.
#[verifier::external_body]
fn argon2_verify(password: &[u8], phc: &str) -> (r: Result<bool, argon2::password_hash::Error>)
    ensures
        r is Ok <==> phc_parses(phc@),
        phc@.len() == 0 || phc@[0] != '$' ==> r is Err,
        r is Ok ==> r->Ok_0 == argon2_accepts(password@, phc@),
{
    let hash = PasswordHash::new(phc)?;
    Ok(Argon2::default().verify_password(password, &hash).is_ok())
}

pub open spec fn is_internal(e: HttpError) -> bool {
    e == HttpError::Simple(INTERNAL_SERVER_ERROR, e->Simple_1) && e->Simple_1@ == "internal_server_error"@
}

/// Hashes a password with the base64 salt `salt`; a salt that argon2 does
/// not take is an internal error. The hash verifies with the same password.
pub fn hash_password(password: &str, salt: &str) -> (r: Result<String, HttpError>)
    ensures
        password.spec_bytes().len() <= MAX_PASSWORD_BYTES ==> (r is Ok <==> argon2_salt_ok(salt@)),
        salt@.len() < 4 || salt@.len() > 64 ==> r is Err,
        match r {
            Ok(h) => h@ == argon2_phc(password.spec_bytes(), salt@) && phc_parses(h@)
                && argon2_accepts(password.spec_bytes(), h@),
            Err(e) => is_internal(e),
        },
{
    match argon2_hash(password.as_bytes(), salt) {
        Ok(h) => Ok(h),
        Err(_) => Err(HttpError::internal()),
    }
}

/// Checks a password against a stored PHC string; a string that does not
/// parse is an internal error.
pub fn verify_password(password: &str, hash: &str) -> (r: Result<bool, HttpError>)
    ensures
        r is Ok <==> phc_parses(hash@),
        hash@.len() == 0 || hash@[0] != '$' ==> r is Err,
        match r {
            Ok(b) => b == argon2_accepts(password.spec_bytes(), hash@),
            Err(e) => is_internal(e),
        },
{
    match argon2_verify(password.as_bytes(), hash) {
        Ok(b) => Ok(b),
        Err(_) => Err(HttpError::internal()),
    }
}

} // verus!
