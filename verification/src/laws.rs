//! What holds across calls of the flows.

use vstd::prelude::*;
use crate::claims::{BasicTokenPayload, IdTokenPayloadView};
use crate::config::SsoConfig;
use crate::decoding::Decoding;
use crate::error::SsoErrorView;
use crate::events::{AuthorizeActionView, AuthorizeEvent, ExchangeActionView};
use crate::events::{NonceOutcomeView, ProviderAnswerView, RedeemActionView};
use crate::flow::{authorize_step, exchange_begun, exchange_of_lookup, redeem_begun, redeemed};
use crate::flow::{rolled_token, Sso};
use crate::identity::AuthenticatedUserView;
use crate::notice::NoticeView;
use crate::tokens::{auth_tokens_outcome, tokens_created};
use crate::tokens::{AuthMethod, AuthTokensView, Device, RefreshReadingView, User};

verus! {

/// The nonce store as the flows see it: the set of nonces that have a record.
/// This says what a store that keeps its records does when it is asked to find
/// the record of a nonce and to delete it, and what it holds afterwards.
pub open spec fn store_consumes(
    before: Set<Seq<char>>,
    nonce: Seq<char>,
    outcome: NonceOutcomeView,
    after: Set<Seq<char>>,
) -> bool {
    match outcome {
        NonceOutcomeView::Missing => !before.contains(nonce) && after == before,
        NonceOutcomeView::DeleteFailed(_) => before.contains(nonce) && after == before,
        NonceOutcomeView::Deleted => before.contains(nonce) && after == before.remove(nonce),
    }
}

/// A code that was exchanged is not exchanged again while the cache has it:
/// begun once more with the same code, `exchange_code` gives the very result of
/// the first exchange, unless the entry has left the cache by then, in which
/// case it asks for the provider.
pub proof fn law_exchange_is_remembered(
    before: &Sso,
    after: &Sso,
    code: Seq<char>,
    answer: ProviderAnswerView,
    id: Result<IdTokenPayloadView, SsoErrorView>,
    first: ExchangeActionView,
    second: ExchangeActionView,
)
    requires
        before.exchange_completed(after, code, answer, id, first),
        first matches ExchangeActionView::Done(Ok(_)),
        exchange_begun(after.codes(), code, second),
    ensures
        second is AskProvider || second == first,
{
    if !(second is AskProvider) {
        let user = crate::flow::exchanged_identity(answer, id)->Ok_0;
        assert(after.codes().dom().contains(code));
        assert(before.codes().insert(code, user).dom().contains(code));
    }
}

/// The requests that an answer of `exchange_code` sends to the provider's token
/// endpoint: one where it asks for the provider, none where the flow is over.
pub open spec fn token_requests(action: ExchangeActionView) -> nat {
    if action is AskProvider {
        1
    } else {
        0
    }
}

/// Two exchanges of one code in a row send at most one request to the token
/// endpoint, where the second finds in the cache what the first stored: the
/// first exchange asks at most once, its completion asks nothing, and the
/// second answers from the cache with the result of the first.
pub proof fn law_exchange_asks_once(
    before: &Sso,
    after: &Sso,
    code: Seq<char>,
    answer: ProviderAnswerView,
    id: Result<IdTokenPayloadView, SsoErrorView>,
    begun: ExchangeActionView,
    completed: ExchangeActionView,
    found: Option<AuthenticatedUserView>,
    again: ExchangeActionView,
)
    requires
        exchange_begun(before.codes(), code, begun),
        begun is AskProvider,
        before.exchange_completed(after, code, answer, id, completed),
        completed matches ExchangeActionView::Done(Ok(_)),
        found matches Some(user) && after.codes().dom().contains(code) && after.codes()[code]
            == user,
        again == exchange_of_lookup(found),
    ensures
        token_requests(begun) + token_requests(completed) + token_requests(again) <= 1,
        again == completed,
{
}

/// A code is redeemed at most once: after a redemption that found the code,
/// the next one does not find it.
pub proof fn law_redeem_is_single(
    start: Map<Seq<char>, AuthenticatedUserView>,
    middle: Map<Seq<char>, AuthenticatedUserView>,
    end: Map<Seq<char>, AuthenticatedUserView>,
    code: Seq<char>,
    first: RedeemActionView,
    second: RedeemActionView,
)
    requires
        redeem_begun(start, middle, code, first),
        first is ConsumeNonce,
        redeem_begun(middle, end, code, second),
    ensures
        second == RedeemActionView::Done(Err(SsoErrorView::CodeNotFound)),
        end == middle,
{
}

/// A redemption hands out the identity only where the nonce store deleted the
/// record of its nonce, and then the record is gone.
pub proof fn law_redeem_deletes_nonce(
    before: Set<Seq<char>>,
    after: Set<Seq<char>>,
    user: AuthenticatedUserView,
    outcome: NonceOutcomeView,
)
    requires
        store_consumes(before, user.nonce, outcome, after),
    ensures
        redeemed(user, outcome) is Ok <==> outcome is Deleted,
        redeemed(user, outcome) matches Ok(handed) ==> handed == user && before.contains(user.nonce)
            && !after.contains(user.nonce),
        redeemed(user, outcome) is Err ==> after == before,
{
}

/// A nonce is consumed at most once: after a redemption that succeeded, no
/// redemption of an identity with the same nonce succeeds, and none deletes
/// anything.
pub proof fn law_nonce_is_single_use(
    start: Set<Seq<char>>,
    middle: Set<Seq<char>>,
    end: Set<Seq<char>>,
    first: AuthenticatedUserView,
    first_outcome: NonceOutcomeView,
    second: AuthenticatedUserView,
    second_outcome: NonceOutcomeView,
)
    requires
        first.nonce == second.nonce,
        store_consumes(start, first.nonce, first_outcome, middle),
        redeemed(first, first_outcome) is Ok,
        store_consumes(middle, second.nonce, second_outcome, end),
    ensures
        redeemed(second, second_outcome) == Err::<AuthenticatedUserView, SsoErrorView>(
            SsoErrorView::NonceMissing,
        ),
        end == middle,
{
}

/// An authorization URL is handed out only once its nonce is recorded, and the
/// nonce that is recorded is the one that the URL was built with.
pub proof fn law_url_needs_recorded_nonce(config: SsoConfig, event: AuthorizeEvent)
    ensures
        authorize_step(config, event) matches AuthorizeActionView::Done(Ok(url)) ==> (
        event matches AuthorizeEvent::NonceSaved { url: built, saved } && saved is Ok && built
            == url),
        event matches AuthorizeEvent::UrlBuilt { url, nonce } ==> authorize_step(config, event)
            == (AuthorizeActionView::SaveNonce { url, nonce: nonce@ }),
{
}

/// The effective not-before of a token without `nbf` is its `iat`; without
/// either it is the current time.
pub proof fn law_not_before_falls_back(payload: BasicTokenPayload, now: i64)
    requires
        payload.nbf is None,
    ensures
        payload.iat matches Some(issued) ==> payload.effective_nbf(now) == issued,
        payload.iat is None ==> payload.effective_nbf(now) == now,
{
}

/// A refresh token that cannot be decoded does not fail the session: with an
/// access token that decodes, the refresh claims run from `now` for the default
/// span and keep the token as it came.
pub proof fn law_opaque_refresh_token(
    config: &SsoConfig,
    device: &Device,
    user: &User,
    token: Seq<char>,
    failure: SsoErrorView,
    access: BasicTokenPayload,
    now: i64,
)
    requires
        now + config.default_refresh_validity <= i64::MAX,
    ensures
        auth_tokens_outcome(
            config,
            device,
            user,
            Some(RefreshReadingView { token, decoded: Err(failure) }),
            Ok(access),
            now,
        ) matches Ok(tokens) && (tokens.refresh_claims matches Some(claims) && {
            &&& claims.nbf == now
            &&& claims.exp == now + config.default_refresh_validity
            &&& claims.refresh_token == Some(token)
            &&& claims.device_token == device.refresh_token@
            &&& claims.iss == config.login_issuer@
            &&& claims.sub == AuthMethod::Sso
        }),
{
}

/// Claims that were built for a provider refresh token hold that very token,
/// the device's own refresh token and the SSO tag.
pub proof fn law_claims_keep_refresh_token(
    config: &SsoConfig,
    decoding: &Decoding,
    device: &Device,
    user: &User,
    token: Seq<char>,
    access_token: Seq<char>,
    result: Result<AuthTokensView, SsoErrorView>,
    before: Seq<NoticeView>,
    after: Seq<NoticeView>,
)
    requires
        tokens_created(config, decoding, device, user, Some(token), access_token, result, before, after),
    ensures
        result matches Ok(tokens) ==> (tokens.refresh_claims matches Some(claims) && {
            &&& claims.refresh_token == Some(token)
            &&& claims.device_token == device.refresh_token@
            &&& claims.iss == config.login_issuer@
            &&& claims.sub == AuthMethod::Sso
        }) && tokens.access_claims.method == AuthMethod::Sso,
{
}

/// Rotation: after a refresh, the claims hold the refresh token that the
/// provider sent, and the one that was presented where it sent none.
pub proof fn law_refresh_token_rotation(
    config: &SsoConfig,
    decoding: &Decoding,
    device: &Device,
    user: &User,
    stored: Seq<char>,
    sent: Option<Seq<char>>,
    access_token: Seq<char>,
    result: Result<AuthTokensView, SsoErrorView>,
    before: Seq<NoticeView>,
    after: Seq<NoticeView>,
)
    requires
        tokens_created(
            config,
            decoding,
            device,
            user,
            Some(rolled_token(stored, sent)),
            access_token,
            result,
            before,
            after,
        ),
    ensures
        result matches Ok(tokens) ==> (tokens.refresh_claims matches Some(claims) && (match sent {
            Some(new) => claims.refresh_token == Some(new),
            None => claims.refresh_token == Some(stored),
        })),
{
    law_claims_keep_refresh_token(
        config,
        decoding,
        device,
        user,
        rolled_token(stored, sent),
        access_token,
        result,
        before,
        after,
    );
}

/// Claims that were built without a provider refresh token have no refresh
/// claims.
pub proof fn law_no_refresh_token_no_claims(
    config: &SsoConfig,
    decoding: &Decoding,
    device: &Device,
    user: &User,
    access_token: Seq<char>,
    result: Result<AuthTokensView, SsoErrorView>,
    before: Seq<NoticeView>,
    after: Seq<NoticeView>,
)
    requires
        tokens_created(config, decoding, device, user, None, access_token, result, before, after),
    ensures
        result matches Ok(tokens) ==> tokens.refresh_claims is None,
{
}

} // verus!
