//! A user as stored, and the views of it that leave the service.

use vstd::prelude::*;
use crate::dto::UserClaims;

verus! {

/// A stored user, password hash included.
pub struct User {
    pub email: String,
    pub name: String,
    pub surname: String,
    pub id: String,
    pub password: String,
    pub propic_url: Option<String>,
}

/// A user as shown to clients: everything but the password hash.
pub struct UserModel {
    pub email: String,
    pub name: String,
    pub surname: String,
    pub id: String,
    pub propic_url: Option<String>,
}

impl User {
    /// The identity claims to sign for this user.
    pub fn claims(self) -> (r: UserClaims)
        ensures
            r.user_id == self.id,
            r.name == self.name,
            r.surname == self.surname,
            r.propic_url == self.propic_url,
    {
        UserClaims {
            user_id: self.id,
            name: self.name,
            surname: self.surname,
            propic_url: self.propic_url,
        }
    }

    /// The user as shown to clients.
    pub fn into_model(self) -> (r: UserModel)
        ensures
            r.email == self.email,
            r.name == self.name,
            r.surname == self.surname,
            r.id == self.id,
            r.propic_url == self.propic_url,
    {
        UserModel {
            email: self.email,
            name: self.name,
            surname: self.surname,
            id: self.id,
            propic_url: self.propic_url,
        }
    }
}

impl UserClaims {
    /// The claims of a user who has just registered: no profile picture yet.
    pub fn registered(user_id: String, name: String, surname: String) -> (r: UserClaims)
        ensures
            r.user_id == user_id,
            r.name == name,
            r.surname == surname,
            r.propic_url is None,
    {
        UserClaims { user_id, name, surname, propic_url: None }
    }
}

} // verus!
