//! The claims of the application's own session tokens, bound to the validity of
//! the provider's tokens.

use vstd::prelude::*;
use crate::claims::BasicTokenPayload;
use crate::clock::{unix_now, CLOCK_LIMIT};
use crate::config::SsoConfig;
use crate::decoding::{basic_outcome, Decoding};
use crate::error::{SsoError, SsoErrorView};
use crate::notice::{notices, record, Notice, NoticeView};
use crate::text::{copy_text, opt_text};

verus! {

/// How a session was authenticated.
#[derive(Clone, Copy, Debug, PartialEq, Eq, Structural)]
pub enum AuthMethod {
    Password,
    Sso,
}

/// The device that signs in, as far as the claims name it.
#[derive(Clone, Debug)]
pub struct Device {
    pub uuid: String,
    /// The device's own refresh token.
    pub refresh_token: String,
}

/// The user who signs in, as far as the claims name them.
#[derive(Clone, Debug)]
pub struct User {
    pub uuid: String,
}

/// The claims of a refresh token of the application.
#[derive(Clone, Debug)]
pub struct RefreshJwtClaims {
    /// Not before, in seconds since the epoch.
    pub nbf: i64,
    /// Expiry, in seconds since the epoch.
    pub exp: i64,
    /// The issuer of the application's session tokens.
    pub iss: String,
    /// How the session was authenticated.
    pub sub: AuthMethod,
    /// The refresh token of the device that the session belongs to.
    pub device_token: String,
    /// The provider's refresh token, kept for the next rotation.
    pub refresh_token: Option<String>,
}

/// The claims of an access token of the application.
#[derive(Clone, Debug)]
pub struct LoginJwtClaims {
    /// Not before, in seconds since the epoch.
    pub nbf: i64,
    /// Expiry, in seconds since the epoch.
    pub exp: i64,
    /// The user.
    pub sub: String,
    /// The device.
    pub device: String,
    /// How the session was authenticated.
    pub method: AuthMethod,
}

/// The two claim sets of a session.
#[derive(Clone, Debug)]
pub struct AuthTokens {
    pub refresh_claims: Option<RefreshJwtClaims>,
    pub access_claims: LoginJwtClaims,
}

/// What `RefreshJwtClaims` hold, as plain values.
pub struct RefreshJwtClaimsView {
    pub nbf: i64,
    pub exp: i64,
    pub iss: Seq<char>,
    pub sub: AuthMethod,
    pub device_token: Seq<char>,
    pub refresh_token: Option<Seq<char>>,
}

/// What `LoginJwtClaims` hold, as plain values.
pub struct LoginJwtClaimsView {
    pub nbf: i64,
    pub exp: i64,
    pub sub: Seq<char>,
    pub device: Seq<char>,
    pub method: AuthMethod,
}

/// What `AuthTokens` hold, as plain values.
pub struct AuthTokensView {
    pub refresh_claims: Option<RefreshJwtClaimsView>,
    pub access_claims: LoginJwtClaimsView,
}

impl View for RefreshJwtClaims {
    type V = RefreshJwtClaimsView;

    open spec fn view(&self) -> RefreshJwtClaimsView {
        RefreshJwtClaimsView {
            nbf: self.nbf,
            exp: self.exp,
            iss: self.iss@,
            sub: self.sub,
            device_token: self.device_token@,
            refresh_token: opt_text(self.refresh_token),
        }
    }
}

impl View for LoginJwtClaims {
    type V = LoginJwtClaimsView;

    open spec fn view(&self) -> LoginJwtClaimsView {
        LoginJwtClaimsView {
            nbf: self.nbf,
            exp: self.exp,
            sub: self.sub@,
            device: self.device@,
            method: self.method,
        }
    }
}

/// The view of optional refresh claims.
pub open spec fn opt_refresh(o: Option<RefreshJwtClaims>) -> Option<RefreshJwtClaimsView> {
    match o {
        Some(c) => Some(c@),
        None => None,
    }
}

impl View for AuthTokens {
    type V = AuthTokensView;

    open spec fn view(&self) -> AuthTokensView {
        AuthTokensView {
            refresh_claims: opt_refresh(self.refresh_claims),
            access_claims: self.access_claims@,
        }
    }
}

/// The view of an outcome whose value is `AuthTokens`.
pub open spec fn tokens_outcome(r: Result<AuthTokens, SsoError>) -> Result<
    AuthTokensView,
    SsoErrorView,
> {
    match r {
        Ok(t) => Ok(t@),
        Err(e) => Err(e@),
    }
}

/// A provider refresh token with what decoding it gave.
pub struct RefreshReading {
    pub token: String,
    pub decoded: Result<BasicTokenPayload, SsoError>,
}

/// What a `RefreshReading` holds, as plain values.
pub struct RefreshReadingView {
    pub token: Seq<char>,
    pub decoded: Result<BasicTokenPayload, SsoErrorView>,
}

impl View for RefreshReading {
    type V = RefreshReadingView;

    open spec fn view(&self) -> RefreshReadingView {
        RefreshReadingView { token: self.token@, decoded: basic_outcome(self.decoded) }
    }
}

/// The view of an optional reading.
pub open spec fn opt_reading(o: Option<RefreshReading>) -> Option<RefreshReadingView> {
    match o {
        Some(r) => Some(r@),
        None => None,
    }
}

/// The validity window of a session's refresh claims: that of the provider's
/// refresh token where it could be decoded; else from `now` for the default
/// span.
pub open spec fn refresh_window(
    decoded: Result<BasicTokenPayload, SsoErrorView>,
    now: i64,
    validity: u32,
) -> (int, int) {
    match decoded {
        Ok(payload) => (payload.effective_nbf(now) as int, payload.exp as int),
        Err(_) => (now as int, now + validity),
    }
}

/// The refresh claims of a session: the window of the provider's refresh token,
/// the login issuer, the SSO tag, the device's own refresh token, and the
/// provider's refresh token as it came.
pub open spec fn refresh_claims_of(
    issuer: Seq<char>,
    device_token: Seq<char>,
    reading: RefreshReadingView,
    now: i64,
    validity: u32,
) -> RefreshJwtClaimsView {
    RefreshJwtClaimsView {
        nbf: refresh_window(reading.decoded, now, validity).0 as i64,
        exp: refresh_window(reading.decoded, now, validity).1 as i64,
        iss: issuer,
        sub: AuthMethod::Sso,
        device_token,
        refresh_token: Some(reading.token),
    }
}

/// The access claims of a session: the window of the provider's access token,
/// the user, the device and the SSO tag.
pub open spec fn access_claims_of(
    device_uuid: Seq<char>,
    user_uuid: Seq<char>,
    payload: BasicTokenPayload,
    now: i64,
) -> LoginJwtClaimsView {
    LoginJwtClaimsView {
        nbf: payload.effective_nbf(now),
        exp: payload.exp,
        sub: user_uuid,
        device: device_uuid,
        method: AuthMethod::Sso,
    }
}

/// The claims of a session, given what decoding the provider's tokens gave and
/// the time. An access token that could not be decoded fails the whole; a
/// refresh token that could not be decoded does not.
pub open spec fn auth_tokens_outcome(
    config: &SsoConfig,
    device: &Device,
    user: &User,
    refresh: Option<RefreshReadingView>,
    access: Result<BasicTokenPayload, SsoErrorView>,
    now: i64,
) -> Result<AuthTokensView, SsoErrorView> {
    match access {
        Err(e) => Err(e),
        Ok(payload) => Ok(
            AuthTokensView {
                refresh_claims: match refresh {
                    Some(reading) => Some(
                        refresh_claims_of(
                            config.login_issuer@,
                            device.refresh_token@,
                            reading,
                            now,
                            config.default_refresh_validity,
                        ),
                    ),
                    None => None,
                },
                access_claims: access_claims_of(device.uuid@, user.uuid@, payload, now),
            },
        ),
    }
}

/// Builds the claims of a session from what decoding the provider's tokens gave
/// and the time.
pub fn auth_tokens_from(
    config: &SsoConfig,
    device: &Device,
    user: &User,
    refresh: Option<RefreshReading>,
    access: Result<BasicTokenPayload, SsoError>,
    now: i64,
) -> (r: Result<AuthTokens, SsoError>)
    requires
        now + config.default_refresh_validity <= i64::MAX,
    ensures
        tokens_outcome(r) == auth_tokens_outcome(
            config,
            device,
            user,
            opt_reading(refresh),
            basic_outcome(access),
            now,
        ),
{
    let payload = match access {
        Err(e) => { return Err(e); },
        Ok(p) => p,
    };
    let refresh_claims = match refresh {
        None => None,
        Some(reading) => {
            let window: (i64, i64) = match reading.decoded {
                Ok(p) => (p.nbf_at(now), p.exp),
                Err(_) => (now, now + (config.default_refresh_validity as i64)),
            };
            Some(
                RefreshJwtClaims {
                    nbf: window.0,
                    exp: window.1,
                    iss: copy_text(&config.login_issuer),
                    sub: AuthMethod::Sso,
                    device_token: copy_text(&device.refresh_token),
                    refresh_token: Some(reading.token),
                },
            )
        },
    };
    let access_claims = LoginJwtClaims {
        nbf: payload.nbf_at(now),
        exp: payload.exp,
        sub: copy_text(&user.uuid),
        device: copy_text(&device.uuid),
        method: AuthMethod::Sso,
    };
    Ok(AuthTokens { refresh_claims, access_claims })
}

/// The journal after one decoding attempt: where the token was refused, as
/// after a diagnostic decode of it; else as before.
pub open spec fn decode_logged(
    decoding: &Decoding,
    before: Seq<NoticeView>,
    after: Seq<NoticeView>,
    token_name: Seq<char>,
    token: Seq<char>,
    refused: bool,
) -> bool {
    if refused {
        decoding.diagnosed(before, after, token_name, token)
    } else {
        after == before
    }
}

/// Whether a refresh token was presented and could not be decoded.
pub open spec fn refresh_refused(refresh: Option<RefreshReadingView>) -> bool {
    refresh matches Some(reading) && reading.decoded is Err
}

/// The refresh token that was presented; the empty text where none was.
pub open spec fn presented(refresh: Option<RefreshReadingView>) -> Seq<char> {
    match refresh {
        Some(reading) => reading.token,
        None => Seq::empty(),
    }
}

/// The journal of `create_auth_tokens`, given what the decoder made of the two
/// tokens: first what decoding the refresh token logged, then the note of an
/// opaque refresh token where it was refused, then what decoding the access
/// token logged.
pub open spec fn creation_logged(
    decoding: &Decoding,
    before: Seq<NoticeView>,
    after: Seq<NoticeView>,
    refresh: Option<RefreshReadingView>,
    access_token: Seq<char>,
    access: Result<BasicTokenPayload, SsoErrorView>,
) -> bool {
    exists|middle: Seq<NoticeView>|
        {
            &&& #[trigger] decode_logged(
                decoding,
                before,
                middle,
                "refresh_token"@,
                presented(refresh),
                refresh_refused(refresh),
            )
            &&& decode_logged(
                decoding,
                if refresh_refused(refresh) {
                    middle.push(NoticeView::OpaqueRefreshToken)
                } else {
                    middle
                },
                after,
                "access_token"@,
                access_token,
                access is Err,
            )
        }
}

/// What holds of `create_auth_tokens` for a provider refresh token and an
/// access token, whatever the decoder made of the two and whatever the clock
/// gave: the claims are those of `auth_tokens_outcome`, and the journal that of
/// `creation_logged`, for a reading of that refresh token and a reading of
/// that access token, each made under the key and the audience-relaxed policy
/// of the decoding setup, and for a time that the clock can give.
pub open spec fn tokens_created(
    config: &SsoConfig,
    decoding: &Decoding,
    device: &Device,
    user: &User,
    refresh_token: Option<Seq<char>>,
    access_token: Seq<char>,
    result: Result<AuthTokensView, SsoErrorView>,
    before: Seq<NoticeView>,
    after: Seq<NoticeView>,
) -> bool {
    exists|refresh: Option<RefreshReadingView>, access: Result<BasicTokenPayload, SsoErrorView>, now: i64|
        {
            &&& 0 <= now < CLOCK_LIMIT
            &&& refresh is Some == refresh_token is Some
            &&& refresh matches Some(reading) ==> reading.token == refresh_token.unwrap()
                && decoding.basic_token_decoded("refresh_token"@, reading.token, reading.decoded)
            &&& decoding.basic_token_decoded("access_token"@, access_token, access)
            &&& creation_logged(decoding, before, after, refresh, access_token, access)
            &&& result == #[trigger] auth_tokens_outcome(config, device, user, refresh, access, now)
        }
}

/// Whether one journal continues another.
pub open spec fn continues(after: Seq<NoticeView>, before: Seq<NoticeView>) -> bool {
    before.len() <= after.len() && after.subrange(0, before.len() as int) == before
}

/// Builds the claims of a session from the provider's tokens.
///
/// The access token must decode under the audience-relaxed policy: its window
/// bounds the session. The refresh token need not: providers hand out opaque
/// ones, and the window then runs from now for the default span, which the
/// journal notes.
///
/// The result is that of `auth_tokens_outcome` for what the decoder made of the
/// two tokens and for what the clock gave.
pub fn create_auth_tokens(
    config: &SsoConfig,
    decoding: &Decoding,
    device: &Device,
    user: &User,
    refresh_token: Option<String>,
    access_token: &str,
    journal: &mut Vec<Notice>,
) -> (r: Result<AuthTokens, SsoError>)
    ensures
        tokens_created(
            config,
            decoding,
            device,
            user,
            opt_text(refresh_token),
            access_token@,
            tokens_outcome(r),
            notices(old(journal)@),
            notices(final(journal)@),
        ),
        continues(notices(final(journal)@), notices(old(journal)@)),
{
    let now: i64 = unix_now();
    let ghost start = notices(journal@);
    let ghost mut middle = start;
    proof {
        lemma_continues_itself(start);
    }
    let refresh = match refresh_token {
        None => None,
        Some(token) => {
            let decoded = decoding.decode_basic_token("refresh_token", token.as_str(), journal);
            proof {
                middle = notices(journal@);
                lemma_logged_continues(decoding, start, middle, "refresh_token"@, token@);
            }
            if decoded.is_err() {
                record(journal, Notice::OpaqueRefreshToken);
                proof {
                    lemma_push_continues(middle, NoticeView::OpaqueRefreshToken);
                    lemma_continues_twice(start, middle, notices(journal@));
                }
            }
            Some(RefreshReading { token, decoded })
        },
    };
    let ghost noted = notices(journal@);
    let access = decoding.decode_basic_token("access_token", access_token, journal);
    proof {
        lemma_logged_continues(decoding, noted, notices(journal@), "access_token"@, access_token@);
        lemma_continues_twice(start, noted, notices(journal@));
    }
    let ghost refresh_view = opt_reading(refresh);
    let ghost access_view = basic_outcome(access);
    assert(decode_logged(
        decoding,
        start,
        middle,
        "refresh_token"@,
        presented(refresh_view),
        refresh_refused(refresh_view),
    ));
    assert(creation_logged(decoding, start, notices(journal@), refresh_view, access_token@, access_view));
    auth_tokens_from(config, device, user, refresh, access, now)
}

/// A journal that a diagnostic decode has written to, or left as it was,
/// continues the one before.
pub proof fn lemma_logged_continues(
    decoding: &Decoding,
    before: Seq<NoticeView>,
    after: Seq<NoticeView>,
    name: Seq<char>,
    token: Seq<char>,
)
    requires
        after == before || decoding.diagnosed(before, after, name, token),
    ensures
        continues(after, before),
{
    assert(after.subrange(0, before.len() as int) =~= before);
}

/// Every journal continues itself.
pub proof fn lemma_continues_itself(journal: Seq<NoticeView>)
    ensures
        continues(journal, journal),
{
    assert(journal.subrange(0, journal.len() as int) =~= journal);
}

/// A journal with one more entry continues the one before.
pub proof fn lemma_push_continues(before: Seq<NoticeView>, entry: NoticeView)
    ensures
        continues(before.push(entry), before),
{
    assert(before.push(entry).subrange(0, before.len() as int) =~= before);
}

/// Continuing is transitive.
pub proof fn lemma_continues_twice(
    first: Seq<NoticeView>,
    second: Seq<NoticeView>,
    third: Seq<NoticeView>,
)
    requires
        continues(second, first),
        continues(third, second),
    ensures
        continues(third, first),
{
    assert(third.subrange(0, first.len() as int) =~= third.subrange(
        0,
        second.len() as int,
    ).subrange(0, first.len() as int));
}

} // verus!
