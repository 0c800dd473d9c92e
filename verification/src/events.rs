//! What the caller reports to a flow, and what a flow asks of the caller.
//!
//! A flow never talks to the provider or to the nonce store itself. It is called
//! with an event, and answers with the action to perform next or with the result.

use vstd::prelude::*;
use url::Url;
use crate::error::{SsoError, SsoErrorView};
use crate::identity::{AuthenticatedUser, AuthenticatedUserView};
use crate::identity::{UserInformation, UserInformationView};
use crate::text::{opt_text, texts};
use crate::tokens::{tokens_outcome, AuthTokens, AuthTokensView};

verus! {

/// A parsed URL of the `url` crate. It is carried through as it came.
#[verifier::external_type_specification]
#[verifier::external_body]
pub struct ExUrl(url::Url);

/// What the provider sent for an authorization code: the token response and the
/// userinfo claims, as far as the flow reads them.
#[derive(Clone, Debug)]
pub struct ProviderAnswer {
    /// The identity token, as text.
    pub id_token: Option<String>,
    /// The secret of the access token.
    pub access_token: String,
    /// The secret of the refresh token.
    pub refresh_token: Option<String>,
    /// The email that userinfo gives.
    pub email: Option<String>,
    /// The preferred username that userinfo gives.
    pub preferred_username: Option<String>,
}

/// What a `ProviderAnswer` holds, as plain text.
pub struct ProviderAnswerView {
    pub id_token: Option<Seq<char>>,
    pub access_token: Seq<char>,
    pub refresh_token: Option<Seq<char>>,
    pub email: Option<Seq<char>>,
    pub preferred_username: Option<Seq<char>>,
}

impl View for ProviderAnswer {
    type V = ProviderAnswerView;

    open spec fn view(&self) -> ProviderAnswerView {
        ProviderAnswerView {
            id_token: opt_text(self.id_token),
            access_token: self.access_token@,
            refresh_token: opt_text(self.refresh_token),
            email: opt_text(self.email),
            preferred_username: opt_text(self.preferred_username),
        }
    }
}

/// How the exchange of a code at the provider went.
#[derive(Clone, Debug)]
pub enum ProviderReply {
    /// No client for the provider could be had.
    ClientUnavailable(String),
    /// The token endpoint refused the code or could not be reached.
    TokenEndpointFailed(String),
    /// The provider has no usable userinfo endpoint.
    NoUserInfoEndpoint(String),
    /// The request to the userinfo endpoint failed.
    UserInfoFailed(String),
    /// Both requests were answered.
    Answered(ProviderAnswer),
}

/// What the caller reports to `exchange_code`.
#[derive(Clone, Debug)]
pub enum ExchangeEvent {
    /// A code is to be exchanged.
    Begin,
    /// The provider was asked, as `AskProvider` told.
    Provider(ProviderReply),
}

/// What `exchange_code` answers.
#[derive(Debug)]
pub enum ExchangeAction {
    /// Exchange the code at the token endpoint, fetch userinfo with the access
    /// token that comes back, and report both.
    AskProvider,
    /// The flow is over.
    Done(Result<UserInformation, SsoError>),
}

/// What an `ExchangeAction` holds, as plain text.
pub enum ExchangeActionView {
    AskProvider,
    Done(Result<UserInformationView, SsoErrorView>),
}

impl View for ExchangeAction {
    type V = ExchangeActionView;

    open spec fn view(&self) -> ExchangeActionView {
        match *self {
            ExchangeAction::AskProvider => ExchangeActionView::AskProvider,
            ExchangeAction::Done(Ok(info)) => ExchangeActionView::Done(Ok(info@)),
            ExchangeAction::Done(Err(e)) => ExchangeActionView::Done(Err(e@)),
        }
    }
}

/// An identity that was taken out of the cache and waits for its nonce to be
/// consumed. It shows its nonce and nothing else; the identity is handed out by
/// `redeem` alone, once the nonce is gone.
#[derive(Debug)]
pub struct PendingRedemption {
    user: AuthenticatedUser,
}

impl PendingRedemption {
    /// The identity that waits.
    pub closed spec fn identity(&self) -> AuthenticatedUserView {
        self.user@
    }

    /// Sets an identity aside until its nonce is consumed.
    pub(crate) fn hold(user: AuthenticatedUser) -> (r: PendingRedemption)
        ensures
            r.identity() == user@,
    {
        PendingRedemption { user }
    }

    /// Hands the identity out.
    pub(crate) fn release(self) -> (r: AuthenticatedUser)
        ensures
            r@ == self.identity(),
    {
        self.user
    }

    /// The nonce to look up and delete in the nonce store.
    pub fn nonce(&self) -> (r: &String)
        ensures
            r@ == self.identity().nonce,
    {
        &self.user.nonce
    }
}

/// What the nonce store did when asked to find the record of a nonce and to
/// delete it.
#[derive(Clone, Debug)]
pub enum NonceOutcome {
    /// There is no record of the nonce.
    Missing,
    /// The record was found and could not be deleted.
    DeleteFailed(String),
    /// The record was found and deleted.
    Deleted,
}

/// What a `NonceOutcome` holds, as plain text.
pub enum NonceOutcomeView {
    Missing,
    DeleteFailed(Seq<char>),
    Deleted,
}

impl View for NonceOutcome {
    type V = NonceOutcomeView;

    open spec fn view(&self) -> NonceOutcomeView {
        match *self {
            NonceOutcome::Missing => NonceOutcomeView::Missing,
            NonceOutcome::DeleteFailed(m) => NonceOutcomeView::DeleteFailed(m@),
            NonceOutcome::Deleted => NonceOutcomeView::Deleted,
        }
    }
}

/// What the caller reports to `redeem`.
#[derive(Debug)]
pub enum RedeemEvent {
    /// A code is to be redeemed.
    Begin,
    /// The nonce store was asked, as `ConsumeNonce` told.
    Nonce { pending: PendingRedemption, outcome: NonceOutcome },
}

/// What `redeem` answers.
#[derive(Debug)]
pub enum RedeemAction {
    /// Find the record of the pending identity's nonce, delete it, and report.
    ConsumeNonce(PendingRedemption),
    /// The flow is over.
    Done(Result<AuthenticatedUser, SsoError>),
}

/// What a `RedeemAction` holds, as plain text.
pub enum RedeemActionView {
    ConsumeNonce(AuthenticatedUserView),
    Done(Result<AuthenticatedUserView, SsoErrorView>),
}

impl View for RedeemAction {
    type V = RedeemActionView;

    open spec fn view(&self) -> RedeemActionView {
        match *self {
            RedeemAction::ConsumeNonce(pending) => RedeemActionView::ConsumeNonce(pending.identity()),
            RedeemAction::Done(Ok(user)) => RedeemActionView::Done(Ok(user@)),
            RedeemAction::Done(Err(e)) => RedeemActionView::Done(Err(e@)),
        }
    }
}

/// What the caller reports to `authorize_url`.
#[derive(Debug)]
pub enum AuthorizeEvent {
    /// An authorization is to be started with this state.
    Begin { state: String },
    /// No client for the provider could be had.
    ClientUnavailable(String),
    /// The URL was built, as `BuildUrl` told, with this fresh nonce in it.
    UrlBuilt { url: Url, nonce: String },
    /// The nonce store was asked to record the nonce, as `SaveNonce` told.
    NonceSaved { url: Url, saved: Result<(), String> },
}

/// What `authorize_url` answers.
#[derive(Debug)]
pub enum AuthorizeAction {
    /// Build the URL of the authorization-code flow with this state, a fresh
    /// random nonce and these scopes, and report the URL and the nonce.
    BuildUrl { state: String, scopes: Vec<String> },
    /// Record the nonce in the nonce store, and report with the URL.
    SaveNonce { url: Url, nonce: String },
    /// The flow is over.
    Done(Result<Url, SsoError>),
}

/// What an `AuthorizeAction` holds, as plain values.
pub enum AuthorizeActionView {
    BuildUrl { state: Seq<char>, scopes: Seq<Seq<char>> },
    SaveNonce { url: Url, nonce: Seq<char> },
    Done(Result<Url, SsoErrorView>),
}

impl View for AuthorizeAction {
    type V = AuthorizeActionView;

    open spec fn view(&self) -> AuthorizeActionView {
        match *self {
            AuthorizeAction::BuildUrl { state, scopes } => AuthorizeActionView::BuildUrl {
                state: state@,
                scopes: texts(scopes@),
            },
            AuthorizeAction::SaveNonce { url, nonce } => AuthorizeActionView::SaveNonce {
                url,
                nonce: nonce@,
            },
            AuthorizeAction::Done(Ok(url)) => AuthorizeActionView::Done(Ok(url)),
            AuthorizeAction::Done(Err(e)) => AuthorizeActionView::Done(Err(e@)),
        }
    }
}

/// How the refresh-token grant at the provider went.
#[derive(Clone, Debug)]
pub enum RefreshReply {
    /// No client for the provider could be had.
    ClientUnavailable(String),
    /// The token endpoint refused or could not be reached.
    Failed(String),
    /// The provider sent a new access token, and a new refresh token if it
    /// rotates them.
    Answered { access_token: String, refresh_token: Option<String> },
}

/// What the caller reports to `exchange_refresh_token`.
#[derive(Clone, Debug)]
pub enum RefreshEvent {
    /// A session is to be refreshed.
    Begin,
    /// The provider was asked, as `AskProvider` told.
    Provider(RefreshReply),
}

/// What `exchange_refresh_token` answers.
#[derive(Debug)]
pub enum RefreshAction {
    /// Present this refresh token at the token endpoint, and report.
    AskProvider { refresh_token: String },
    /// The flow is over.
    Done(Result<AuthTokens, SsoError>),
}

/// What a `RefreshAction` holds, as plain values.
pub enum RefreshActionView {
    AskProvider { refresh_token: Seq<char> },
    Done(Result<AuthTokensView, SsoErrorView>),
}

impl View for RefreshAction {
    type V = RefreshActionView;

    open spec fn view(&self) -> RefreshActionView {
        match *self {
            RefreshAction::AskProvider { refresh_token } => RefreshActionView::AskProvider {
                refresh_token: refresh_token@,
            },
            RefreshAction::Done(r) => RefreshActionView::Done(tokens_outcome(r)),
        }
    }
}

} // verus!
