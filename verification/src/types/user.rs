//! Registered users and the answers to their sign-in attempts.

use vstd::prelude::*;
use vstd::string::*;

verus! {

/// A registered user.
#[derive(Debug, PartialEq, Eq)]
pub struct User {
    pub username: String,
    pub password_hash: String,
    /// Nanoseconds since the epoch.
    pub created_at: u64,
}

/// Model of [`User`].
pub struct UserView {
    pub username: Seq<char>,
    pub password_hash: Seq<char>,
    pub created_at: u64,
}

impl View for User {
    type V = UserView;

    open spec fn view(&self) -> UserView {
        UserView {
            username: self.username@,
            password_hash: self.password_hash@,
            created_at: self.created_at,
        }
    }
}

/// Answer to a registration or a sign-in.
#[derive(Debug, PartialEq, Eq)]
pub struct LoginResult {
    pub success: bool,
    pub message: String,
    pub username: Option<String>,
}

/// Model of [`LoginResult`].
pub struct LoginResultView {
    pub success: bool,
    pub message: Seq<char>,
    pub username: Option<Seq<char>>,
}

impl View for LoginResult {
    type V = LoginResultView;

    open spec fn view(&self) -> LoginResultView {
        LoginResultView {
            success: self.success,
            message: self.message@,
            username: self.username.deep_view(),
        }
    }
}

} // verus!
