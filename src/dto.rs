//! The values that requests carry in and responses carry out.

pub mod auth;

use vstd::prelude::*;

verus! {

/// The identity claims that this service signs into its tokens.
#[derive(Clone, Debug, PartialEq, Eq)]
pub struct UserClaims {
    pub user_id: String,
    pub name: String,
    pub surname: String,
    pub propic_url: Option<String>,
}

/// What a notification tells its recipient.
#[derive(Clone, Debug, PartialEq, Eq)]
pub struct NotificationData {
    pub owner: String,
    pub car_name: String,
    pub tank_size: String,
    pub consumption: String,
}

/// A registration as first submitted.
#[derive(Clone, Debug, PartialEq, Eq)]
pub struct RegisterRequest {
    pub email: String,
    pub name: String,
    pub surname: String,
    pub password: String,
}

} // verus!
