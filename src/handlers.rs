//! What the endpoints decide from what storage and the password check
//! reported.

use vstd::prelude::*;
use crate::models::User;
use crate::errors::{
    is_unique_code, is_unique_violation, DbFault, HttpError, BAD_REQUEST, NOT_FOUND, UNAUTHORIZED,
};

verus! {

/// How a device token registration ended, both being a success.
#[derive(PartialEq, Eq, Structural, Clone, Copy, Debug)]
pub enum FcmRegistration {
    Added,
    AlreadyPresent,
}

/// Whether registering a device token counts as a success, given what the
/// insert reported.
pub open spec fn registration_succeeds(insert: Result<(), DbFault>) -> bool {
    match insert {
        Ok(()) => true,
        Err(f) => is_unique_violation(f),
    }
}

/// The result of registering a device token for an owner, given what the
/// insert reported: a uniqueness violation means the pair is already stored,
/// which is a success; any other fault is passed on.
pub fn fcm_registration_outcome(insert: Result<(), DbFault>) -> (r: Result<FcmRegistration, HttpError>)
    ensures
        r is Ok <==> registration_succeeds(insert),
        match insert {
            Ok(()) => r == Ok::<FcmRegistration, HttpError>(FcmRegistration::Added),
            Err(f) => if is_unique_violation(f) {
                r == Ok::<FcmRegistration, HttpError>(FcmRegistration::AlreadyPresent)
            } else {
                r == Err::<FcmRegistration, HttpError>(HttpError::DbError(f))
            },
        },
{
    match insert {
        Ok(()) => Ok(FcmRegistration::Added),
        Err(f) => {
            let unique = match &f {
                DbFault::Database { code: Some(c) } => is_unique_code(c),
                _ => false,
            };
            if unique {
                Ok(FcmRegistration::AlreadyPresent)
            } else {
                Err(HttpError::DbError(f))
            }
        },
    }
}

/// Two concurrent registrations of one (token, owner) pair both succeed:
/// the store lets one insert in and stops the other at its uniqueness
/// constraint, and that violation counts as success.
pub proof fn lemma_concurrent_registrations_succeed(
    first: Result<(), DbFault>,
    second: Result<(), DbFault>,
)
    requires
        (first is Ok && second is Err && is_unique_violation(second->Err_0)) || (second is Ok
            && first is Err && is_unique_violation(first->Err_0)),
    ensures
        registration_succeeds(first),
        registration_succeeds(second),
{
}

/// Login admits a known user whose password matched, and no one else; an
/// unknown e-mail and a wrong password read alike to the client.
pub fn login_outcome(user: Option<User>, password_matches: bool) -> (r: Result<User, HttpError>)
    ensures
        match user {
            Some(u) => if password_matches {
                r == Ok::<User, HttpError>(u)
            } else {
                r is Err && is_invalid_credentials(r->Err_0)
            },
            None => r is Err && is_invalid_credentials(r->Err_0),
        },
{
    match user {
        Some(u) => if password_matches {
            Ok(u)
        } else {
            Err(HttpError::invalid_credentials())
        },
        None => Err(HttpError::invalid_credentials()),
    }
}

pub open spec fn is_invalid_credentials(e: HttpError) -> bool {
    e == HttpError::Simple(UNAUTHORIZED, e->Simple_1) && e->Simple_1@ == "invalid_credentials"@
}

/// The endpoint that looks up the user named by a token's claims.
#[derive(PartialEq, Eq, Structural, Clone, Copy, Debug)]
pub enum UserLookup {
    Profile,
    DeviceToken,
    Notifications,
}

/// The error each endpoint gives when the user named by a token is gone.
pub open spec fn missing_user_error(lookup: UserLookup, e: HttpError) -> bool {
    match lookup {
        UserLookup::Profile => e == HttpError::Simple(NOT_FOUND, e->Simple_1) && e->Simple_1@
            == "user_not_found"@,
        UserLookup::DeviceToken => e == HttpError::Simple(BAD_REQUEST, e->Simple_1) && e->Simple_1@
            == "account_unavailable"@,
        UserLookup::Notifications => is_invalid_credentials(e),
    }
}

/// The user named by a valid token, or the endpoint's error when it is gone.
pub fn require_user(user: Option<User>, lookup: UserLookup) -> (r: Result<User, HttpError>)
    ensures
        match user {
            Some(u) => r == Ok::<User, HttpError>(u),
            None => r is Err && missing_user_error(lookup, r->Err_0),
        },
{
    match user {
        Some(u) => Ok(u),
        None => match lookup {
            UserLookup::Profile => Err(HttpError::user_not_found()),
            UserLookup::DeviceToken => Err(HttpError::account_unavailable()),
            UserLookup::Notifications => Err(HttpError::invalid_credentials()),
        },
    }
}

impl HttpError {
    /// Credentials that do not identify a user.
    pub fn invalid_credentials() -> (r: HttpError)
        ensures
            is_invalid_credentials(r),
    {
        HttpError::Simple(UNAUTHORIZED, "invalid_credentials".to_owned())
    }

    /// The user named by a valid token is gone.
    pub fn user_not_found() -> (r: HttpError)
        ensures
            r == HttpError::Simple(NOT_FOUND, r->Simple_1),
            r->Simple_1@ == "user_not_found"@,
    {
        HttpError::Simple(NOT_FOUND, "user_not_found".to_owned())
    }

    /// The account a request was made with is no longer available.
    pub fn account_unavailable() -> (r: HttpError)
        ensures
            r == HttpError::Simple(BAD_REQUEST, r->Simple_1),
            r->Simple_1@ == "account_unavailable"@,
    {
        HttpError::Simple(BAD_REQUEST, "account_unavailable".to_owned())
    }
}

} // verus!
