//! The result of one code exchange, and the part of it that may be shown early.

use vstd::prelude::*;
use crate::text::{opt_text, copy_text, copy_opt_text};

verus! {

/// The durable result of one successful code exchange. It carries the provider's
/// secret tokens, so it is handed out only once the nonce has been consumed.
#[derive(Clone, Debug)]
pub struct AuthenticatedUser {
    pub nonce: String,
    pub refresh_token: Option<String>,
    pub access_token: String,
    pub email: String,
    pub user_name: Option<String>,
}

/// What an `AuthenticatedUser` holds, as plain text.
pub struct AuthenticatedUserView {
    pub nonce: Seq<char>,
    pub refresh_token: Option<Seq<char>>,
    pub access_token: Seq<char>,
    pub email: Seq<char>,
    pub user_name: Option<Seq<char>>,
}

/// The part of an `AuthenticatedUser` that is safe to show before the second
/// factor is confirmed.
#[derive(Clone, Debug)]
pub struct UserInformation {
    pub email: String,
    pub user_name: Option<String>,
}

/// What a `UserInformation` holds, as plain text.
pub struct UserInformationView {
    pub email: Seq<char>,
    pub user_name: Option<Seq<char>>,
}

impl AuthenticatedUserView {
    /// The non-secret part: email and display name.
    pub open spec fn public_part(self) -> UserInformationView {
        UserInformationView { email: self.email, user_name: self.user_name }
    }
}

impl View for AuthenticatedUser {
    type V = AuthenticatedUserView;

    open spec fn view(&self) -> AuthenticatedUserView {
        AuthenticatedUserView {
            nonce: self.nonce@,
            refresh_token: opt_text(self.refresh_token),
            access_token: self.access_token@,
            email: self.email@,
            user_name: opt_text(self.user_name),
        }
    }
}

impl View for UserInformation {
    type V = UserInformationView;

    open spec fn view(&self) -> UserInformationView {
        UserInformationView { email: self.email@, user_name: opt_text(self.user_name) }
    }
}

impl AuthenticatedUser {
    /// The email and display name, without the tokens and the nonce.
    pub fn user_information(&self) -> (r: UserInformation)
        ensures
            r@ == self@.public_part(),
    {
        UserInformation {
            email: copy_text(&self.email),
            user_name: copy_opt_text(&self.user_name),
        }
    }

    /// A copy with the same contents.
    pub fn duplicate(&self) -> (r: AuthenticatedUser)
        ensures
            r@ == self@,
    {
        AuthenticatedUser {
            nonce: copy_text(&self.nonce),
            refresh_token: copy_opt_text(&self.refresh_token),
            access_token: copy_text(&self.access_token),
            email: copy_text(&self.email),
            user_name: copy_opt_text(&self.user_name),
        }
    }
}

impl UserInformation {
    /// A copy with the same contents.
    pub fn duplicate(&self) -> (r: UserInformation)
        ensures
            r@ == self@,
    {
        UserInformation {
            email: copy_text(&self.email),
            user_name: copy_opt_text(&self.user_name),
        }
    }
}

} // verus!
