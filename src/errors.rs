//! One error model for every failure that reaches a client: each carries a
//! transport status and a stable machine-readable code, and nothing of the
//! internal detail.

use vstd::prelude::*;
use vstd::string::StringExecFns;

verus! {

pub const BAD_REQUEST: u16 = 400;

pub const UNAUTHORIZED: u16 = 401;

pub const NOT_FOUND: u16 = 404;

pub const CONFLICT: u16 = 409;

pub const INTERNAL_SERVER_ERROR: u16 = 500;

/// A storage failure, as far as it is told apart: a database error with the
/// code the database gave (if any), or any other fault of the driver.
pub enum DbFault {
    Database { code: Option<String> },
    Other,
}

/// The storage code of a uniqueness-constraint violation.
pub open spec fn unique_violation_code() -> Seq<char> {
    "23505"@
}

pub open spec fn is_unique_violation(f: DbFault) -> bool {
    match f {
        DbFault::Database { code: Some(c) } => c@ == unique_violation_code(),
        _ => false,
    }
}

pub enum HttpError {
    DbError(DbFault),
    ParsingError(String, u16),
    InvalidFieldsError(Vec<String>),
    Simple(u16, String),
}

/// What a client is sent for a failure: `{"success": false, "error": ..}`,
/// with the offending fields where input validation failed.
pub struct ErrorResponse {
    pub status: u16,
    pub error: String,
    pub fields: Option<Vec<String>>,
}

/// The status and code that a client gets for an error, and its fields.
pub open spec fn response_of(e: HttpError) -> (u16, Seq<char>, Option<Seq<String>>) {
    match e {
        HttpError::ParsingError(text, _) => (BAD_REQUEST, text@, None),
        HttpError::DbError(DbFault::Database { code: Some(c) }) => if c@ == unique_violation_code() {
            (CONFLICT, "duplicate_row"@, None)
        } else {
            (INTERNAL_SERVER_ERROR, "err_code_"@ + c@, None)
        },
        HttpError::DbError(DbFault::Database { code: None }) => (
            INTERNAL_SERVER_ERROR,
            "generic_db_error"@,
            None,
        ),
        HttpError::DbError(DbFault::Other) => (INTERNAL_SERVER_ERROR, "internal_server_error"@, None),
        HttpError::InvalidFieldsError(fields) => (BAD_REQUEST, "invalid_fields"@, Some(fields@)),
        HttpError::Simple(status, msg) => (status, msg@, None),
    }
}

/// Whether `code` is the uniqueness-violation code.
pub fn is_unique_code(code: &String) -> (r: bool)
    ensures
        r == (code@ == unique_violation_code()),
{
    let unique = "23505".to_owned();
    proof {
        reveal_strlit("23505");
    }
    *code == unique
}

impl HttpError {
    /// A failure of the worker pool that ran an offloaded task.
    pub fn async_error() -> (r: HttpError)
        ensures
            r == HttpError::Simple(INTERNAL_SERVER_ERROR, r->Simple_1),
            r->Simple_1@ == "async_error"@,
    {
        HttpError::Simple(INTERNAL_SERVER_ERROR, "async_error".to_owned())
    }

    /// A token that could not be produced.
    pub fn bad_jwt() -> (r: HttpError)
        ensures
            r == HttpError::Simple(INTERNAL_SERVER_ERROR, r->Simple_1),
            r->Simple_1@ == "bad_jwt"@,
    {
        HttpError::Simple(INTERNAL_SERVER_ERROR, "bad_jwt".to_owned())
    }

    /// A failure of the password-hashing collaborator.
    pub fn internal() -> (r: HttpError)
        ensures
            r == HttpError::Simple(INTERNAL_SERVER_ERROR, r->Simple_1),
            r->Simple_1@ == "internal_server_error"@,
    {
        HttpError::Simple(INTERNAL_SERVER_ERROR, "internal_server_error".to_owned())
    }

    /// A request body that is not the JSON the endpoint expects.
    pub fn invalid_body(status: u16) -> (r: HttpError)
        ensures
            r == HttpError::ParsingError(r->ParsingError_0, status),
            r->ParsingError_0@ == "invalid_body"@,
    {
        HttpError::ParsingError("invalid_body".to_owned(), status)
    }

    /// The response a client is sent for this error.
    pub fn into_response(self) -> (r: ErrorResponse)
        ensures
            (r.status, r.error@, match r.fields {
                Some(f) => Some(f@),
                None => None,
            }) == response_of(self),
    {
        proof {
            reveal_strlit("duplicate_row");
            reveal_strlit("err_code_");
            reveal_strlit("generic_db_error");
            reveal_strlit("internal_server_error");
            reveal_strlit("invalid_fields");
        }
        match self {
            HttpError::ParsingError(text, _) => ErrorResponse {
                status: BAD_REQUEST,
                error: text,
                fields: None,
            },
            HttpError::DbError(fault) => match fault {
                DbFault::Database { code: Some(c) } => {
                    if is_unique_code(&c) {
                        ErrorResponse { status: CONFLICT, error: "duplicate_row".to_owned(), fields: None }
                    } else {
                        let error = "err_code_".to_owned().concat(c.as_str());
                        ErrorResponse { status: INTERNAL_SERVER_ERROR, error, fields: None }
                    }
                },
                DbFault::Database { code: None } => ErrorResponse {
                    status: INTERNAL_SERVER_ERROR,
                    error: "generic_db_error".to_owned(),
                    fields: None,
                },
                DbFault::Other => ErrorResponse {
                    status: INTERNAL_SERVER_ERROR,
                    error: "internal_server_error".to_owned(),
                    fields: None,
                },
            },
            HttpError::InvalidFieldsError(fields) => ErrorResponse {
                status: BAD_REQUEST,
                error: "invalid_fields".to_owned(),
                fields: Some(fields),
            },
            HttpError::Simple(status, msg) => ErrorResponse { status, error: msg, fields: None },
        }
    }
}

} // verus!
