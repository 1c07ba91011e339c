//! User records and the shapes in which they enter and leave the service.

use vstd::prelude::*;
use crate::text::{clone_opt, opt_view};

verus! {

/// A user as the identity store keeps it.
#[derive(Debug, PartialEq, Eq)]
pub struct User {
    /// The storage key, in its hexadecimal form; absent until the record is stored.
    pub id: Option<String>,
    pub name: String,
    pub email: String,
    /// The hash of the password, never the password itself.
    pub password: String,
    /// The refresh token of the latest login, if there was one.
    pub refresh_token: Option<String>,
}

/// What a `User` holds.
pub struct UserView {
    pub id: Option<Seq<char>>,
    pub name: Seq<char>,
    pub email: Seq<char>,
    pub password: Seq<char>,
    pub refresh_token: Option<Seq<char>>,
}

impl View for User {
    type V = UserView;

    open spec fn view(&self) -> UserView {
        UserView {
            id: opt_view(self.id),
            name: self.name@,
            email: self.email@,
            password: self.password@,
            refresh_token: opt_view(self.refresh_token),
        }
    }
}

/// The public profile of a user: no password, no hash, no token.
#[derive(Debug, PartialEq, Eq)]
pub struct UserResponse {
    pub id: Option<String>,
    pub name: String,
    pub email: String,
}

/// What a `UserResponse` holds.
pub struct UserResponseView {
    pub id: Option<Seq<char>>,
    pub name: Seq<char>,
    pub email: Seq<char>,
}

impl View for UserResponse {
    type V = UserResponseView;

    open spec fn view(&self) -> UserResponseView {
        UserResponseView { id: opt_view(self.id), name: self.name@, email: self.email@ }
    }
}

/// What a client sends to register.
#[derive(Debug, PartialEq, Eq)]
pub struct NewUser {
    pub name: String,
    pub email: String,
    pub password: String,
    pub refresh_token: Option<String>,
}

/// What a client sends to log in.
#[derive(Debug, PartialEq, Eq)]
pub struct LoginUser {
    pub email: String,
    pub password: String,
}

impl UserView {
    /// The public part of the record.
    pub open spec fn profile(self) -> UserResponseView {
        UserResponseView { id: self.id, name: self.name, email: self.email }
    }

    /// The record after a login has stored `token` on it: whatever token was
    /// there before is gone.
    pub open spec fn with_refresh_token(self, token: Seq<char>) -> UserView {
        UserView { refresh_token: Some(token), ..self }
    }
}

impl User {
    /// The public profile of this user.
    pub fn profile(&self) -> (profile: UserResponse)
        ensures
            profile@ == self@.profile(),
    {
        UserResponse {
            id: clone_opt(&self.id),
            name: self.name.clone(),
            email: self.email.clone(),
        }
    }

    /// Stores the refresh token of a login on the record, over the one of any
    /// earlier login.
    pub fn store_refresh_token(&mut self, token: String)
        ensures
            final(self)@ == old(self)@.with_refresh_token(token@),
    {
        self.refresh_token = Some(token);
    }
}

/// The public profiles of `users`, in their order.
pub open spec fn profiles(users: Seq<User>) -> Seq<UserResponseView> {
    users.map(|i: int, u: User| u@.profile())
}

/// The views of `responses`, in their order.
pub open spec fn response_views(responses: Seq<UserResponse>) -> Seq<UserResponseView> {
    responses.map(|i: int, r: UserResponse| r@)
}

} // verus!
