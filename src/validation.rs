//! Field validation of request bodies, through the validator crate.

use vstd::prelude::*;
use crate::dto::auth::{LoginRequest, RegisterRequest};
use crate::errors::HttpError;

verus! {

/// The fewest characters a password may have.
pub const MIN_PASSWORD_CHARS: u64 = 8;

/// Whether validator takes a text for an e-mail address (the HTML5 form rule).
pub uninterp spec fn html5_email(s: Seq<char>) -> bool;

/// Relies on `validator::validate_email`: its verdict depends on the text
/// alone, and a text without `@` is refused.
#[verifier::external_body]
fn is_email(s: &String) -> (r: bool)
    ensures
        r == html5_email(s@),
        !s@.contains('@') ==> !r,
{
    validator::validate_email(s)
}

/// Relies on `validator::validate_length` on a `&String` with a minimum only:
/// it counts characters and compares with the minimum.
#[verifier::external_body]
fn has_min_chars(s: &String, min: u64) -> (r: bool)
    ensures
        r == (s@.len() >= min),
{
    validator::validate_length(s, Some(min), None, None)
}

/// The names of the fields of a login that fail validation.
pub open spec fn login_invalid_fields(email: Seq<char>) -> Seq<Seq<char>> {
    if html5_email(email) {
        seq![]
    } else {
        seq!["email"@]
    }
}

/// The names of the fields of a registration that fail validation, in
/// declaration order.
pub open spec fn register_invalid_fields(email: Seq<char>, password: Seq<char>) -> Seq<Seq<char>> {
    login_invalid_fields(email) + if password.len() >= MIN_PASSWORD_CHARS {
        seq![]
    } else {
        seq!["password"@]
    }
}

pub open spec fn field_names(fields: Seq<String>) -> Seq<Seq<char>> {
    fields.map_values(|f: String| f@)
}

/// Ok when no field is invalid, else the invalid fields, named.
pub open spec fn rejects_exactly(r: Result<(), HttpError>, invalid: Seq<Seq<char>>) -> bool {
    match r {
        Ok(()) => invalid.len() == 0,
        Err(e) => invalid.len() > 0 && e is InvalidFieldsError && field_names(
            e->InvalidFieldsError_0@,
        ) == invalid,
    }
}

fn push_email(fields: &mut Vec<String>)
    ensures
        field_names(final(fields)@) == field_names(old(fields)@).push("email"@),
{
    fields.push("email".to_owned());
    proof {
        reveal_strlit("email");
        assert(field_names(final(fields)@) =~= field_names(old(fields)@).push("email"@));
    }
}

impl LoginRequest {
    /// Checks the e-mail address of a login.
    pub fn validate(&self) -> (r: Result<(), HttpError>)
        ensures
            rejects_exactly(r, login_invalid_fields(self.email@)),
    {
        let mut fields: Vec<String> = Vec::new();
        if !is_email(&self.email) {
            push_email(&mut fields);
        }
        assert(field_names(fields@) =~= login_invalid_fields(self.email@));
        if fields.len() == 0 {
            Ok(())
        } else {
            Err(HttpError::InvalidFieldsError(fields))
        }
    }
}

impl RegisterRequest {
    /// Checks the e-mail address and the password length of a registration.
    pub fn validate(&self) -> (r: Result<(), HttpError>)
        ensures
            rejects_exactly(r, register_invalid_fields(self.email@, self.password@)),
    {
        let mut fields: Vec<String> = Vec::new();
        if !is_email(&self.email) {
            push_email(&mut fields);
        }
        assert(field_names(fields@) =~= login_invalid_fields(self.email@));
        if !has_min_chars(&self.password, MIN_PASSWORD_CHARS) {
            let ghost before = fields@;
            fields.push("password".to_owned());
            proof {
                reveal_strlit("password");
                assert(field_names(fields@) =~= field_names(before).push("password"@));
            }
        }
        assert(field_names(fields@) =~= register_invalid_fields(self.email@, self.password@));
        if fields.len() == 0 {
            Ok(())
        } else {
            Err(HttpError::InvalidFieldsError(fields))
        }
    }
}

} // verus!
