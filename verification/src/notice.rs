//! What the flows report for the operator's log without failing: diagnostics
//! and soft warnings.

use vstd::prelude::*;
use vstd::string::StringExecFns;

verus! {

/// One entry for the operator's log.
#[derive(Clone, Debug)]
pub enum Notice {
    /// The configured key file could not be read: tokens are read without a
    /// signature check.
    KeyFileUnreadable { path: String, detail: String },
    /// The claims of a token that failed validation, read without checking its
    /// signature. For diagnosis only: nothing is decided from them.
    TokenClaims { token_name: String, claims: String },
    /// Offline access was requested, but the provider sent no refresh token.
    MissingRefreshToken,
    /// The provider's refresh token is not a readable token: its validity runs
    /// from now for the default span.
    OpaqueRefreshToken,
}

/// What a `Notice` holds, as plain text.
pub enum NoticeView {
    KeyFileUnreadable { path: Seq<char>, detail: Seq<char> },
    TokenClaims { token_name: Seq<char>, claims: Seq<char> },
    MissingRefreshToken,
    OpaqueRefreshToken,
}

impl View for Notice {
    type V = NoticeView;

    open spec fn view(&self) -> NoticeView {
        match *self {
            Notice::KeyFileUnreadable { path, detail } => NoticeView::KeyFileUnreadable {
                path: path@,
                detail: detail@,
            },
            Notice::TokenClaims { token_name, claims } => NoticeView::TokenClaims {
                token_name: token_name@,
                claims: claims@,
            },
            Notice::MissingRefreshToken => NoticeView::MissingRefreshToken,
            Notice::OpaqueRefreshToken => NoticeView::OpaqueRefreshToken,
        }
    }
}

impl NoticeView {
    /// The line to log.
    pub open spec fn line(self) -> Seq<char> {
        match self {
            NoticeView::KeyFileUnreadable { path, detail } =>
                "[INFO] Can't read optional SSO public key at "@ + path + " : "@ + detail,
            NoticeView::TokenClaims { token_name, claims } =>
                "Token "@ + token_name + ": "@ + claims,
            NoticeView::MissingRefreshToken =>
                "Scope offline_access is present but response contain no refresh_token"@,
            NoticeView::OpaqueRefreshToken =>
                "Could not decode refresh_token, using the default refresh validity"@,
        }
    }
}

/// The entries of a journal, in order.
pub open spec fn notices(journal: Seq<Notice>) -> Seq<NoticeView> {
    journal.map_values(|n: Notice| n@)
}

/// Appends one entry to the journal.
pub fn record(journal: &mut Vec<Notice>, notice: Notice)
    ensures
        notices(final(journal)@) == notices(old(journal)@).push(notice@),
{
    journal.push(notice);
    assert(notices(journal@) =~= notices(old(journal)@).push(notice@));
}

impl Notice {
    /// The line to log for this entry.
    pub fn line(&self) -> (r: String)
        ensures
            r@ == self@.line(),
    {
        match self {
            Notice::KeyFileUnreadable { path, detail } => {
                let mut out = String::from_str("[INFO] Can't read optional SSO public key at ");
                out.append(path.as_str());
                out.append(" : ");
                out.append(detail.as_str());
                out
            },
            Notice::TokenClaims { token_name, claims } => {
                let mut out = String::from_str("Token ");
                out.append(token_name.as_str());
                out.append(": ");
                out.append(claims.as_str());
                out
            },
            Notice::MissingRefreshToken => String::from_str(
                "Scope offline_access is present but response contain no refresh_token",
            ),
            Notice::OpaqueRefreshToken => String::from_str(
                "Could not decode refresh_token, using the default refresh validity",
            ),
        }
    }
}

} // verus!
