//! The four flows: authorize, exchange a code, redeem it, refresh a session.

use vstd::prelude::*;
use crate::cache::{no_entries, CodeCache};
use crate::claims::{IdTokenPayload, IdTokenPayloadView};
use crate::config::SsoConfig;
use crate::decoding::{id_outcome, Decoding};
use crate::error::{SsoError, SsoErrorView};
use crate::events::{AuthorizeAction, AuthorizeActionView, AuthorizeEvent};
use crate::events::{ExchangeAction, ExchangeActionView, ExchangeEvent};
use crate::events::{NonceOutcome, NonceOutcomeView, PendingRedemption};
use crate::events::{ProviderAnswer, ProviderAnswerView, ProviderReply};
use crate::events::{RedeemAction, RedeemActionView, RedeemEvent};
use crate::events::{RefreshAction, RefreshActionView, RefreshEvent, RefreshReply};
use crate::identity::{AuthenticatedUser, AuthenticatedUserView};
use crate::notice::{notices, record, Notice, NoticeView};
use crate::text::{copy_text, copy_texts, opt_text, texts};
use crate::tokens::{continues, tokens_created, tokens_outcome, lemma_continues_itself};
use crate::tokens::{AuthTokens, Device, RefreshJwtClaims, User};

verus! {

/// The view of an outcome whose value is an `AuthenticatedUser`.
pub open spec fn user_outcome(r: Result<AuthenticatedUser, SsoError>) -> Result<
    AuthenticatedUserView,
    SsoErrorView,
> {
    match r {
        Ok(u) => Ok(u@),
        Err(e) => Err(e@),
    }
}

/// The email of an exchange: the identity token's where it names one, else the
/// one that userinfo gives.
pub open spec fn resolved_email(id: IdTokenPayloadView, answer: ProviderAnswerView) -> Option<
    Seq<char>,
> {
    match id.email {
        Some(email) => Some(email),
        None => answer.email,
    }
}

/// The identity that an exchange gives, from the provider's answer and from
/// what decoding the identity token gave.
pub open spec fn exchanged_identity(
    answer: ProviderAnswerView,
    id: Result<IdTokenPayloadView, SsoErrorView>,
) -> Result<AuthenticatedUserView, SsoErrorView> {
    match id {
        Err(e) => Err(e),
        Ok(payload) => match resolved_email(payload, answer) {
            None => Err(SsoErrorView::MissingEmail),
            Some(email) => Ok(
                AuthenticatedUserView {
                    nonce: payload.nonce,
                    refresh_token: answer.refresh_token,
                    access_token: answer.access_token,
                    email,
                    user_name: answer.preferred_username,
                },
            ),
        },
    }
}

/// Builds the identity of an exchange from the provider's answer and from what
/// decoding the identity token gave.
pub fn identity_from(answer: ProviderAnswer, id: Result<IdTokenPayload, SsoError>) -> (r: Result<
    AuthenticatedUser,
    SsoError,
>)
    ensures
        user_outcome(r) == exchanged_identity(answer@, id_outcome(id)),
{
    let payload = match id {
        Err(e) => { return Err(e); },
        Ok(p) => p,
    };
    let email = match payload.email {
        Some(email) => email,
        None => match answer.email {
            None => { return Err(SsoError::MissingEmail); },
            Some(email) => email,
        },
    };
    Ok(
        AuthenticatedUser {
            nonce: payload.nonce,
            refresh_token: answer.refresh_token,
            access_token: answer.access_token,
            email,
            user_name: answer.preferred_username,
        },
    )
}

/// The failure that a reply of the provider stands for, if it is one.
pub open spec fn reply_failure(reply: ProviderReply) -> Option<SsoErrorView> {
    match reply {
        ProviderReply::ClientUnavailable(m) => Some(SsoErrorView::Discovery(m@)),
        ProviderReply::TokenEndpointFailed(m) => Some(SsoErrorView::TokenEndpoint(m@)),
        ProviderReply::NoUserInfoEndpoint(m) => Some(SsoErrorView::NoUserInfoEndpoint(m@)),
        ProviderReply::UserInfoFailed(m) => Some(SsoErrorView::UserInfoRequest(m@)),
        ProviderReply::Answered(_) => None,
    }
}

/// What `exchange_code` answers when it is begun: the cached identity's public
/// part, where the cache still has the code, and else the request to ask the
/// provider.
pub open spec fn exchange_begun(
    codes: Map<Seq<char>, AuthenticatedUserView>,
    code: Seq<char>,
    action: ExchangeActionView,
) -> bool {
    action is AskProvider || (codes.dom().contains(code) && action == ExchangeActionView::Done(
        Ok(codes[code].public_part()),
    ))
}

/// What is known of the decoding of an answer's identity token: an absent token
/// is reported as such, and a token that is there was read under the key and
/// the identity-token policy of the decoding setup.
pub open spec fn id_token_read(
    decoding: &Decoding,
    answer: ProviderAnswerView,
    id: Result<IdTokenPayloadView, SsoErrorView>,
) -> bool {
    &&& answer.id_token is None ==> id == Err::<IdTokenPayloadView, SsoErrorView>(
        SsoErrorView::MissingIdToken,
    )
    &&& answer.id_token matches Some(token) ==> decoding.id_token_decoded(token, id)
}

/// The journal after an exchange that gave an identity: it notes a missing
/// refresh token where offline access was asked for.
pub open spec fn journal_after_exchange(
    before: Seq<NoticeView>,
    user: AuthenticatedUserView,
    offline_access: bool,
) -> Seq<NoticeView> {
    if user.refresh_token is None && offline_access {
        before.push(NoticeView::MissingRefreshToken)
    } else {
        before
    }
}

/// The nonce that redemption will consume, for what the nonce store did.
pub open spec fn redeemed(user: AuthenticatedUserView, outcome: NonceOutcomeView) -> Result<
    AuthenticatedUserView,
    SsoErrorView,
> {
    match outcome {
        NonceOutcomeView::Deleted => Ok(user),
        NonceOutcomeView::Missing => Err(SsoErrorView::NonceMissing),
        NonceOutcomeView::DeleteFailed(m) => Err(SsoErrorView::NonceDelete(m)),
    }
}

/// What `redeem` does when it is begun: a code that the cache has leaves the
/// cache at once and its identity waits for the nonce; any other code is not
/// found.
pub open spec fn redeem_begun(
    before: Map<Seq<char>, AuthenticatedUserView>,
    after: Map<Seq<char>, AuthenticatedUserView>,
    code: Seq<char>,
    action: RedeemActionView,
) -> bool {
    match action {
        RedeemActionView::ConsumeNonce(user) => {
            &&& before.dom().contains(code)
            &&& before[code] == user
            &&& after == before.remove(code)
        },
        RedeemActionView::Done(r) => {
            &&& r == Err::<AuthenticatedUserView, SsoErrorView>(SsoErrorView::CodeNotFound)
            &&& after == before
        },
    }
}

/// What `authorize_url` answers to an event.
pub open spec fn authorize_step(config: SsoConfig, event: AuthorizeEvent) -> AuthorizeActionView {
    match event {
        AuthorizeEvent::Begin { state } => AuthorizeActionView::BuildUrl {
            state: state@,
            scopes: texts(config.scopes@),
        },
        AuthorizeEvent::ClientUnavailable(m) => AuthorizeActionView::Done(
            Err(SsoErrorView::Discovery(m@)),
        ),
        AuthorizeEvent::UrlBuilt { url, nonce } => AuthorizeActionView::SaveNonce {
            url,
            nonce: nonce@,
        },
        AuthorizeEvent::NonceSaved { url, saved } => match saved {
            Ok(_) => AuthorizeActionView::Done(Ok(url)),
            Err(m) => AuthorizeActionView::Done(Err(SsoErrorView::NonceSave(m@))),
        },
    }
}

/// The refresh token to keep after a refresh: the new one where the provider
/// sent one, else the one that was presented.
pub open spec fn rolled_token(stored: Seq<char>, sent: Option<Seq<char>>) -> Seq<char> {
    match sent {
        Some(token) => token,
        None => stored,
    }
}

/// The single sign-on bridge: the settings, the decoding setup, the cache of
/// exchanged codes and the journal.
pub struct Sso {
    config: SsoConfig,
    decoding: Decoding,
    codes: CodeCache,
    journal: Vec<Notice>,
}

impl Sso {
    /// The codes that were exchanged and not redeemed since, with their
    /// identities. A lookup finds nothing else; it may find less, since entries
    /// of the cache expire and are evicted.
    pub closed spec fn codes(&self) -> Map<Seq<char>, AuthenticatedUserView> {
        self.codes.entries()
    }

    /// The entries of the journal that were not yet taken.
    pub closed spec fn journal(&self) -> Seq<NoticeView> {
        notices(self.journal@)
    }

    /// The settings.
    pub closed spec fn config(&self) -> SsoConfig {
        self.config
    }

    /// The decoding setup.
    pub closed spec fn decoding(&self) -> Decoding {
        self.decoding
    }

    /// The limits of the code cache: capacity, and time to live in seconds.
    pub closed spec fn code_limits(&self) -> (u64, u64) {
        (self.codes.capacity(), self.codes.time_to_live())
    }

    /// Whether two states have the same settings, decoding setup and limits.
    pub open spec fn same_setup(&self, other: &Sso) -> bool {
        &&& self.config() == other.config()
        &&& self.decoding() == other.decoding()
        &&& self.code_limits() == other.code_limits()
    }

    /// Whether the exchange of `code` is complete, given the provider's answer
    /// and what decoding its identity token gave: an identity is stored under
    /// the code and its public part is the result; a failure stores nothing.
    pub open spec fn exchange_completed(
        &self,
        after: &Sso,
        code: Seq<char>,
        answer: ProviderAnswerView,
        id: Result<IdTokenPayloadView, SsoErrorView>,
        action: ExchangeActionView,
    ) -> bool {
        &&& id_token_read(&self.decoding(), answer, id)
        &&& match exchanged_identity(answer, id) {
            Ok(user) => {
                &&& action == ExchangeActionView::Done(Ok(user.public_part()))
                &&& after.codes() == self.codes().insert(code, user)
                &&& after.journal() == journal_after_exchange(
                    self.journal(),
                    user,
                    self.config().wants_offline_access(),
                )
            },
            Err(e) => {
                &&& action == ExchangeActionView::Done(Err(e))
                &&& after.codes() == self.codes()
                &&& if id is Err && answer.id_token is Some {
                    self.decoding().diagnosed(
                        self.journal(),
                        after.journal(),
                        "identity_token"@,
                        answer.id_token->Some_0,
                    )
                } else {
                    after.journal() == self.journal()
                }
            },
        }
    }

    /// A bridge with an empty cache for 1000 codes, each kept for ten minutes,
    /// and an empty journal.
    pub fn new(config: SsoConfig, decoding: Decoding) -> (r: Sso)
        ensures
            r.config() == config,
            r.decoding() == decoding,
            r.codes() == no_entries(),
            r.journal() == Seq::<NoticeView>::empty(),
            r.code_limits() == (crate::cache::CODE_CAPACITY, crate::cache::CODE_TIME_TO_LIVE),
    {
        let journal: Vec<Notice> = Vec::new();
        assert(notices(journal@) =~= Seq::<NoticeView>::empty());
        Sso { config, decoding, codes: CodeCache::new(), journal }
    }

    /// A bridge around a code cache of the caller's making, which may hold
    /// entries already, and an empty journal.
    pub fn with_codes(config: SsoConfig, decoding: Decoding, codes: CodeCache) -> (r: Sso)
        ensures
            r.config() == config,
            r.decoding() == decoding,
            r.codes() == codes.entries(),
            r.journal() == Seq::<NoticeView>::empty(),
            r.code_limits() == (codes.capacity(), codes.time_to_live()),
    {
        let journal: Vec<Notice> = Vec::new();
        assert(notices(journal@) =~= Seq::<NoticeView>::empty());
        Sso { config, decoding, codes, journal }
    }

    /// The settings.
    pub fn settings(&self) -> (r: &SsoConfig)
        ensures
            *r == self.config(),
    {
        &self.config
    }

    /// Hands out the journal's entries and empties the journal.
    pub fn take_notices(&mut self) -> (r: Vec<Notice>)
        ensures
            notices(r@) == old(self).journal(),
            final(self).journal() == Seq::<NoticeView>::empty(),
            final(self).codes() == old(self).codes(),
            final(self).same_setup(old(self)),
    {
        let mut out: Vec<Notice> = Vec::new();
        std::mem::swap(&mut self.journal, &mut out);
        assert(notices(self.journal@) =~= Seq::<NoticeView>::empty());
        out
    }

    /// The capacity of the code cache and its time to live in seconds.
    pub fn cache_limits(&self) -> (r: (u64, u64))
        ensures
            r == self.code_limits(),
    {
        self.codes.limits()
    }

    /// Builds the claims of a session from the provider's tokens, with this
    /// bridge's settings and decoding setup.
    pub fn create_auth_tokens(
        &mut self,
        device: &Device,
        user: &User,
        refresh_token: Option<String>,
        access_token: &str,
    ) -> (r: Result<AuthTokens, SsoError>)
        ensures
            tokens_created(
                &old(self).config(),
                &old(self).decoding(),
                device,
                user,
                opt_text(refresh_token),
                access_token@,
                tokens_outcome(r),
                old(self).journal(),
                final(self).journal(),
            ),
            continues(final(self).journal(), old(self).journal()),
            final(self).codes() == old(self).codes(),
            final(self).same_setup(old(self)),
    {
        crate::tokens::create_auth_tokens(
            &self.config,
            &self.decoding,
            device,
            user,
            refresh_token,
            access_token,
            &mut self.journal,
        )
    }
}

/// What `exchange_code` answers, when it is begun, to what the lookup of the code
/// gave: the public part of the identity that was found, or the request to ask
/// the provider.
pub open spec fn exchange_of_lookup(found: Option<AuthenticatedUserView>) -> ExchangeActionView {
    match found {
        Some(user) => ExchangeActionView::Done(Ok(user.public_part())),
        None => ExchangeActionView::AskProvider,
    }
}

/// The view of an optional identity.
pub open spec fn opt_user(found: Option<AuthenticatedUser>) -> Option<AuthenticatedUserView> {
    match found {
        Some(user) => Some(user@),
        None => None,
    }
}

/// Answers a begun exchange from what the lookup of the code gave.
pub fn exchange_from_lookup(found: Option<AuthenticatedUser>) -> (action: ExchangeAction)
    ensures
        action@ == exchange_of_lookup(opt_user(found)),
{
    match found {
        Some(user) => ExchangeAction::Done(Ok(user.user_information())),
        None => ExchangeAction::AskProvider,
    }
}

/// Answers a begun redemption from what the lookup of the code gave: an
/// identity that was found leaves the cache at once and waits for its nonce to
/// be consumed; where none was found the code is not found, and the cache stays
/// as it is.
pub fn redeem_from_lookup(codes: &mut CodeCache, code: &String, found: Option<AuthenticatedUser>) -> (action:
    RedeemAction)
    ensures
        match found {
            Some(user) => {
                &&& action@ == RedeemActionView::ConsumeNonce(user@)
                &&& final(codes).entries() == old(codes).entries().remove(code@)
            },
            None => {
                &&& action@ == RedeemActionView::Done(Err(SsoErrorView::CodeNotFound))
                &&& final(codes).entries() == old(codes).entries()
            },
        },
        final(codes).capacity() == old(codes).capacity(),
        final(codes).time_to_live() == old(codes).time_to_live(),
{
    match found {
        Some(user) => {
            codes.invalidate(code);
            RedeemAction::ConsumeNonce(PendingRedemption::hold(user))
        },
        None => RedeemAction::Done(Err(SsoError::CodeNotFound)),
    }
}

/// Starts an authorization: tells what URL to build, has the nonce recorded
/// that the URL carries, and only then hands the URL out. Where the nonce
/// cannot be recorded the flow fails, so that no authorization runs without
/// replay protection.
pub fn authorize_url(sso: &Sso, event: AuthorizeEvent) -> (action: AuthorizeAction)
    ensures
        action@ == authorize_step(sso.config(), event),
{
    match event {
        AuthorizeEvent::Begin { state } => AuthorizeAction::BuildUrl {
            state,
            scopes: copy_texts(&sso.config.scopes),
        },
        AuthorizeEvent::ClientUnavailable(m) => AuthorizeAction::Done(
            Err(SsoError::Discovery(m)),
        ),
        AuthorizeEvent::UrlBuilt { url, nonce } => AuthorizeAction::SaveNonce { url, nonce },
        AuthorizeEvent::NonceSaved { url, saved } => match saved {
            Ok(_) => AuthorizeAction::Done(Ok(url)),
            Err(m) => AuthorizeAction::Done(Err(SsoError::NonceSave(m))),
        },
    }
}

/// Exchanges an authorization code for the identity behind it.
///
/// Begun with a code that the cache still has, it answers from the cache
/// and the provider is not asked again. Otherwise it asks for the provider's
/// answer; given that, it decodes the identity token, settles the email,
/// stores the identity under the code, and answers with its public part.
pub fn exchange_code(sso: &mut Sso, code: &String, event: ExchangeEvent) -> (action: ExchangeAction)
    ensures
        final(sso).same_setup(old(sso)),
        match event {
            ExchangeEvent::Begin => {
                &&& exchange_begun(old(sso).codes(), code@, action@)
                &&& final(sso).codes() == old(sso).codes()
                &&& final(sso).journal() == old(sso).journal()
            },
            ExchangeEvent::Provider(reply) => match reply {
                ProviderReply::Answered(answer) => exists|
                    id: Result<IdTokenPayloadView, SsoErrorView>,
                | #[trigger]
                    old(sso).exchange_completed(final(sso), code@, answer@, id, action@),
                _ => {
                    &&& action@ == ExchangeActionView::Done(Err(reply_failure(reply).unwrap()))
                    &&& final(sso).codes() == old(sso).codes()
                    &&& final(sso).journal() == old(sso).journal()
                },
            },
        },
{
    let answer = match event {
        ExchangeEvent::Begin => {
            return exchange_from_lookup(sso.codes.get(code));
        },
        ExchangeEvent::Provider(reply) => match reply {
            ProviderReply::ClientUnavailable(m) => {
                return ExchangeAction::Done(Err(SsoError::Discovery(m)));
            },
            ProviderReply::TokenEndpointFailed(m) => {
                return ExchangeAction::Done(Err(SsoError::TokenEndpoint(m)));
            },
            ProviderReply::NoUserInfoEndpoint(m) => {
                return ExchangeAction::Done(Err(SsoError::NoUserInfoEndpoint(m)));
            },
            ProviderReply::UserInfoFailed(m) => {
                return ExchangeAction::Done(Err(SsoError::UserInfoRequest(m)));
            },
            ProviderReply::Answered(answer) => answer,
        },
    };
    let ghost answer_view = answer@;
    let id = sso.decoding.decode_id_token(answer.id_token.as_ref(), &mut sso.journal);
    let ghost id_view = id_outcome(id);
    let action = match identity_from(answer, id) {
        Err(e) => ExchangeAction::Done(Err(e)),
        Ok(user) => {
            if user.refresh_token.is_none() && sso.config.offline_access_requested() {
                record(&mut sso.journal, Notice::MissingRefreshToken);
            }
            let info = user.user_information();
            sso.codes.insert(copy_text(code), user);
            ExchangeAction::Done(Ok(info))
        },
    };
    assert(old(sso).exchange_completed(sso, code@, answer_view, id_view, action@));
    action
}

/// Redeems an exchanged code once the second factor has been confirmed.
///
/// Begun with a code that the cache has, it takes the entry out of the cache
/// at once, so that no second redemption finds it, and has the nonce of the
/// identity consumed. The identity, with its secret tokens, is handed out
/// only when the nonce store reports the record deleted.
pub fn redeem(sso: &mut Sso, code: &String, event: RedeemEvent) -> (action: RedeemAction)
    ensures
        final(sso).same_setup(old(sso)),
        final(sso).journal() == old(sso).journal(),
        match event {
            RedeemEvent::Begin => redeem_begun(
                old(sso).codes(),
                final(sso).codes(),
                code@,
                action@,
            ),
            RedeemEvent::Nonce { pending, outcome } => {
                &&& final(sso).codes() == old(sso).codes()
                &&& action@ == RedeemActionView::Done(redeemed(pending.identity(), outcome@))
            },
        },
{
    match event {
        RedeemEvent::Begin => {
            let found = sso.codes.get(code);
            redeem_from_lookup(&mut sso.codes, code, found)
        },
        RedeemEvent::Nonce { pending, outcome } => match outcome {
            NonceOutcome::Deleted => RedeemAction::Done(Ok(pending.release())),
            NonceOutcome::Missing => RedeemAction::Done(Err(SsoError::NonceMissing)),
            NonceOutcome::DeleteFailed(m) => RedeemAction::Done(Err(SsoError::NonceDelete(m))),
        },
    }
}

/// Rolls a session over: presents the stored provider refresh token, and
/// builds new claims from the access token that comes back and from the new
/// refresh token, or from the stored one where the provider sent none.
///
/// Claims without a provider refresh token cannot be refreshed.
pub fn exchange_refresh_token(
    sso: &mut Sso,
    device: &Device,
    user: &User,
    refresh_claims: &RefreshJwtClaims,
    event: RefreshEvent,
) -> (action: RefreshAction)
    ensures
        final(sso).same_setup(old(sso)),
        final(sso).codes() == old(sso).codes(),
        continues(final(sso).journal(), old(sso).journal()),
        refresh_claims.refresh_token is None ==> action@ == RefreshActionView::Done(
            Err(SsoErrorView::MissingRefreshToken),
        ),
        refresh_claims.refresh_token matches Some(stored) ==> match event {
            RefreshEvent::Begin => action@ == (RefreshActionView::AskProvider {
                refresh_token: stored@,
            }),
            RefreshEvent::Provider(reply) => match reply {
                RefreshReply::ClientUnavailable(m) => action@ == RefreshActionView::Done(
                    Err(SsoErrorView::Discovery(m@)),
                ),
                RefreshReply::Failed(m) => action@ == RefreshActionView::Done(
                    Err(SsoErrorView::RefreshEndpoint(m@)),
                ),
                RefreshReply::Answered { access_token, refresh_token } => action@ matches RefreshActionView::Done(
                    result,
                ) && tokens_created(
                    &old(sso).config(),
                    &old(sso).decoding(),
                    device,
                    user,
                    Some(rolled_token(stored@, opt_text(refresh_token))),
                    access_token@,
                    result,
                    old(sso).journal(),
                    final(sso).journal(),
                ),
            },
        },
        !(event matches RefreshEvent::Provider(RefreshReply::Answered { .. }))
            ==> final(sso).journal() == old(sso).journal(),
{
    proof {
        lemma_continues_itself(sso.journal());
    }
    let stored = match &refresh_claims.refresh_token {
        None => { return RefreshAction::Done(Err(SsoError::MissingRefreshToken)); },
        Some(token) => token,
    };
    match event {
        RefreshEvent::Begin => RefreshAction::AskProvider { refresh_token: copy_text(stored) },
        RefreshEvent::Provider(reply) => match reply {
            RefreshReply::ClientUnavailable(m) => RefreshAction::Done(
                Err(SsoError::Discovery(m)),
            ),
            RefreshReply::Failed(m) => RefreshAction::Done(Err(SsoError::RefreshEndpoint(m))),
            RefreshReply::Answered { access_token, refresh_token } => {
                let rolled = match refresh_token {
                    Some(token) => token,
                    None => copy_text(stored),
                };
                RefreshAction::Done(
                    sso.create_auth_tokens(device, user, Some(rolled), access_token.as_str()),
                )
            },
        },
    }
}

} // verus!
