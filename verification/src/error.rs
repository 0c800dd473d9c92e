//! The failures that the flows report, each with its human-readable message.

use vstd::prelude::*;
use vstd::string::StringExecFns;

verus! {

/// A failure of one of the flows. Variants that come from a collaborator carry
/// the text that the collaborator gave.
#[derive(Clone, Debug)]
pub enum SsoError {
    /// The configured public key is present but cannot be parsed.
    InvalidKey(String),
    /// The provider's discovery document could not be fetched or read.
    Discovery(String),
    /// The token endpoint refused or could not be reached.
    TokenEndpoint(String),
    /// The provider advertises no usable userinfo endpoint.
    NoUserInfoEndpoint(String),
    /// The request to the userinfo endpoint failed.
    UserInfoRequest(String),
    /// The token response held no identity token.
    MissingIdToken,
    /// The identity token failed decoding or validation.
    IdTokenDecode(String),
    /// An access or refresh token failed decoding or validation.
    TokenDecode { token_name: String, detail: String },
    /// Neither the identity token nor userinfo named an email.
    MissingEmail,
    /// The nonce of a new authorization could not be recorded; the message is
    /// the store's own.
    NonceSave(String),
    /// No record of the nonce was found at redemption.
    NonceMissing,
    /// The record of the nonce could not be deleted.
    NonceDelete(String),
    /// The code is not in the cache: never exchanged, expired, evicted or redeemed.
    CodeNotFound,
    /// The refresh-token grant failed at the provider.
    RefreshEndpoint(String),
    /// The stored claims hold no provider refresh token.
    MissingRefreshToken,
}

/// What an `SsoError` holds, as plain text.
pub enum SsoErrorView {
    InvalidKey(Seq<char>),
    Discovery(Seq<char>),
    TokenEndpoint(Seq<char>),
    NoUserInfoEndpoint(Seq<char>),
    UserInfoRequest(Seq<char>),
    MissingIdToken,
    IdTokenDecode(Seq<char>),
    TokenDecode { token_name: Seq<char>, detail: Seq<char> },
    MissingEmail,
    NonceSave(Seq<char>),
    NonceMissing,
    NonceDelete(Seq<char>),
    CodeNotFound,
    RefreshEndpoint(Seq<char>),
    MissingRefreshToken,
}

impl View for SsoError {
    type V = SsoErrorView;

    open spec fn view(&self) -> SsoErrorView {
        match *self {
            SsoError::InvalidKey(d) => SsoErrorView::InvalidKey(d@),
            SsoError::Discovery(d) => SsoErrorView::Discovery(d@),
            SsoError::TokenEndpoint(d) => SsoErrorView::TokenEndpoint(d@),
            SsoError::NoUserInfoEndpoint(d) => SsoErrorView::NoUserInfoEndpoint(d@),
            SsoError::UserInfoRequest(d) => SsoErrorView::UserInfoRequest(d@),
            SsoError::MissingIdToken => SsoErrorView::MissingIdToken,
            SsoError::IdTokenDecode(d) => SsoErrorView::IdTokenDecode(d@),
            SsoError::TokenDecode { token_name, detail } => SsoErrorView::TokenDecode {
                token_name: token_name@,
                detail: detail@,
            },
            SsoError::MissingEmail => SsoErrorView::MissingEmail,
            SsoError::NonceSave(d) => SsoErrorView::NonceSave(d@),
            SsoError::NonceMissing => SsoErrorView::NonceMissing,
            SsoError::NonceDelete(d) => SsoErrorView::NonceDelete(d@),
            SsoError::CodeNotFound => SsoErrorView::CodeNotFound,
            SsoError::RefreshEndpoint(d) => SsoErrorView::RefreshEndpoint(d@),
            SsoError::MissingRefreshToken => SsoErrorView::MissingRefreshToken,
        }
    }
}

impl SsoErrorView {
    /// The fixed opening of the message.
    pub open spec fn heading(self) -> Seq<char> {
        match self {
            SsoErrorView::InvalidKey(_) => "Failed to decode optional SSO public RSA Key, format should exactly match:\n-----BEGIN PUBLIC KEY-----\n...\n-----END PUBLIC KEY-----\nError: "@,
            SsoErrorView::Discovery(_) => "Failed to discover OpenID provider: "@,
            SsoErrorView::TokenEndpoint(_) => "Failed to contact token endpoint: "@,
            SsoErrorView::NoUserInfoEndpoint(_) => "No user_info endpoint: "@,
            SsoErrorView::UserInfoRequest(_) => "Request to user_info endpoint failed: "@,
            SsoErrorView::MissingIdToken => "Token response did not contain an id_token"@,
            SsoErrorView::IdTokenDecode(_) => "Could not decode id token: "@,
            SsoErrorView::TokenDecode { .. } => "Could not decode "@,
            SsoErrorView::MissingEmail => "Neither id token nor userinfo contained an email"@,
            SsoErrorView::NonceSave(_) => Seq::empty(),
            SsoErrorView::NonceMissing => "Failed to retrive nonce from db"@,
            SsoErrorView::NonceDelete(_) => "Failed to delete nonce: "@,
            SsoErrorView::CodeNotFound => "Failed to retrieve user info from sso cache"@,
            SsoErrorView::RefreshEndpoint(_) => "Request to exchange_refresh_token endpoint failed: "@,
            SsoErrorView::MissingRefreshToken =>
                "Impossible to retrieve new access token, refresh_token is missing"@,
        }
    }

    /// What follows the heading: the collaborator's text, where there is one.
    pub open spec fn tail(self) -> Seq<char> {
        match self {
            SsoErrorView::InvalidKey(d) => d,
            SsoErrorView::Discovery(d) => d,
            SsoErrorView::TokenEndpoint(d) => d,
            SsoErrorView::NoUserInfoEndpoint(d) => d,
            SsoErrorView::UserInfoRequest(d) => d,
            SsoErrorView::IdTokenDecode(d) => d,
            SsoErrorView::TokenDecode { token_name, detail } => token_name + ": "@ + detail,
            SsoErrorView::NonceSave(d) => d,
            SsoErrorView::NonceDelete(d) => d,
            SsoErrorView::RefreshEndpoint(d) => d,
            _ => Seq::empty(),
        }
    }

    /// The whole message.
    pub open spec fn message(self) -> Seq<char> {
        self.heading() + self.tail()
    }
}

/// The heading followed by the detail.
fn headed(heading: &str, detail: &String) -> (r: String)
    ensures
        r@ == heading@ + detail@,
{
    let mut out = String::from_str(heading);
    out.append(detail.as_str());
    out
}

impl SsoError {
    /// The human-readable message of this failure.
    pub fn message(&self) -> (r: String)
        ensures
            r@ == self@.message(),
    {
        match self {
            SsoError::InvalidKey(d) => headed("Failed to decode optional SSO public RSA Key, format should exactly match:\n-----BEGIN PUBLIC KEY-----\n...\n-----END PUBLIC KEY-----\nError: ", d),
            SsoError::Discovery(d) => headed("Failed to discover OpenID provider: ", d),
            SsoError::TokenEndpoint(d) => headed("Failed to contact token endpoint: ", d),
            SsoError::NoUserInfoEndpoint(d) => headed("No user_info endpoint: ", d),
            SsoError::UserInfoRequest(d) => headed("Request to user_info endpoint failed: ", d),
            SsoError::MissingIdToken => String::from_str("Token response did not contain an id_token"),
            SsoError::IdTokenDecode(d) => headed("Could not decode id token: ", d),
            SsoError::TokenDecode { token_name, detail } => {
                let mut out = headed("Could not decode ", token_name);
                out.append(": ");
                out.append(detail.as_str());
                assert(out@ == "Could not decode "@ + (token_name@ + ": "@ + detail@));
                out
            },
            SsoError::MissingEmail => String::from_str(
                "Neither id token nor userinfo contained an email",
            ),
            SsoError::NonceSave(d) => {
                let out = d.clone();
                assert(out@ == Seq::<char>::empty() + d@);
                out
            },
            SsoError::NonceMissing => String::from_str("Failed to retrive nonce from db"),
            SsoError::NonceDelete(d) => headed("Failed to delete nonce: ", d),
            SsoError::CodeNotFound => String::from_str("Failed to retrieve user info from sso cache"),
            SsoError::RefreshEndpoint(d) => headed(
                "Request to exchange_refresh_token endpoint failed: ",
                d,
            ),
            SsoError::MissingRefreshToken => String::from_str(
                "Impossible to retrieve new access token, refresh_token is missing",
            ),
        }
    }
}

} // verus!
