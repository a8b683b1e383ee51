//! The bodies of the authentication endpoints.

use vstd::prelude::*;
use crate::models::UserModel;

verus! {

pub struct LoggedUserResponse {
    pub success: bool,
    pub user: UserModel,
}

pub struct LoginRequest {
    pub email: String,
    pub password: String,
}

pub struct LoginResponse {
    pub success: bool,
    pub token: String,
}

pub struct PutFcmTokenRequest {
    pub token: String,
}

pub struct RegisterRequest {
    pub email: String,
    pub name: String,
    pub surname: String,
    pub password: String,
}

pub struct RegisterResponse {
    pub success: bool,
    pub token: String,
}

impl LoggedUserResponse {
    /// The successful answer for a logged-in user.
    pub fn found(user: UserModel) -> (r: LoggedUserResponse)
        ensures
            r.success,
            r.user == user,
    {
        LoggedUserResponse { success: true, user }
    }
}

impl LoginResponse {
    /// The successful answer to a login, carrying the new token.
    pub fn issued(token: String) -> (r: LoginResponse)
        ensures
            r.success,
            r.token == token,
    {
        LoginResponse { success: true, token }
    }
}

impl RegisterResponse {
    /// The successful answer to a registration, carrying the new token.
    pub fn issued(token: String) -> (r: RegisterResponse)
        ensures
            r.success,
            r.token == token,
    {
        RegisterResponse { success: true, token }
    }
}

} // verus!
