use jsonwebtoken::{EncodingKey, Header};
use serde_json::Value;
use sso::cache::CodeCache;
use sso::client::ClientCache;
use sso::config::SsoConfig;
use sso::decoding::{pre_load_sso_jwt_validation, Decoding, KeyFile};
use sso::error::SsoError;
use sso::events::{AuthorizeAction, AuthorizeEvent, ExchangeAction, ExchangeEvent};
use sso::events::{NonceOutcome, ProviderAnswer, ProviderReply};
use sso::events::{RedeemAction, RedeemEvent, RefreshAction, RefreshEvent, RefreshReply};
use sso::flow::{authorize_url, exchange_code, exchange_from_lookup, exchange_refresh_token};
use sso::flow::{identity_from, redeem, redeem_from_lookup, Sso};
use sso::identity::{AuthenticatedUser, UserInformation};
use sso::notice::Notice;
use sso::tokens::{AuthMethod, Device, RefreshJwtClaims, User};
use url::Url;

fn config(scopes: Vec<&str>) -> SsoConfig {
    SsoConfig {
        enabled: true,
        client_id: "client-1".to_string(),
        authority: "https://sso.example.com".to_string(),
        scopes: scopes.into_iter().map(|s| s.to_string()).collect(),
        key_filepath: "/data/sso_key.pub.pem".to_string(),
        default_refresh_validity: 2_592_000,
        login_issuer: "https://vault.example.com|login".to_string(),
    }
}

fn now() -> i64 {
    std::time::SystemTime::now().duration_since(std::time::UNIX_EPOCH).unwrap().as_secs() as i64
}

fn unsigned_token(claims: Vec<(&str, Value)>) -> String {
    let mut members = serde_json::Map::new();
    for (name, value) in claims {
        members.insert(name.to_string(), value);
    }
    jsonwebtoken::encode(
        &Header::default(),
        &Value::Object(members),
        &EncodingKey::from_secret(b"any secret will do"),
    )
    .unwrap()
}

fn decoding(settings: &SsoConfig) -> Decoding {
    let mut journal = Vec::new();
    pre_load_sso_jwt_validation(settings, &KeyFile::NotRead, &mut journal).unwrap()
}

fn bridge(scopes: Vec<&str>) -> Sso {
    let settings = config(scopes);
    let setup = decoding(&settings);
    Sso::new(settings, setup)
}

fn id_token(nonce: &str, email: Option<&str>) -> String {
    let mut claims = vec![("exp", Value::from(now() + 600)), ("nonce", Value::from(nonce))];
    if let Some(email) = email {
        claims.push(("email", Value::from(email)));
    }
    unsigned_token(claims)
}

fn answer(nonce: &str) -> ProviderAnswer {
    ProviderAnswer {
        id_token: Some(id_token(nonce, None)),
        access_token: "access-secret".to_string(),
        refresh_token: Some("refresh-secret".to_string()),
        email: Some("a@example.com".to_string()),
        preferred_username: Some("alice".to_string()),
    }
}

fn exchanged(sso: &mut Sso, code: &str, nonce: &str) -> UserInformation {
    match exchange_code(sso, &code.to_string(), ExchangeEvent::Provider(ProviderReply::Answered(answer(nonce)))) {
        ExchangeAction::Done(Ok(info)) => info,
        other => panic!("unexpected action {:?}", other),
    }
}

fn failure(action: ExchangeAction) -> SsoError {
    match action {
        ExchangeAction::Done(Err(error)) => error,
        other => panic!("unexpected action {:?}", other),
    }
}

fn device() -> Device {
    Device { uuid: "device-1".to_string(), refresh_token: "device-refresh-1".to_string() }
}

fn user() -> User {
    User { uuid: "user-1".to_string() }
}

fn stored_claims(refresh_token: Option<&str>) -> RefreshJwtClaims {
    RefreshJwtClaims {
        nbf: 1700000000,
        exp: 1800000000,
        iss: "https://vault.example.com|login".to_string(),
        sub: AuthMethod::Sso,
        device_token: "device-refresh-1".to_string(),
        refresh_token: refresh_token.map(|t| t.to_string()),
    }
}

#[test]
fn unknown_code_asks_for_the_provider() {
    let mut sso = bridge(vec!["email"]);
    assert!(matches!(
        exchange_code(&mut sso, &"codeA".to_string(), ExchangeEvent::Begin),
        ExchangeAction::AskProvider
    ));
    assert!(sso.take_notices().is_empty());
}

#[test]
fn provider_failures_end_the_exchange() {
    let mut sso = bridge(vec!["email"]);
    let code = "codeA".to_string();
    let reply = ProviderReply::ClientUnavailable("connection refused".to_string());
    assert_eq!(
        failure(exchange_code(&mut sso, &code, ExchangeEvent::Provider(reply))).message(),
        "Failed to discover OpenID provider: connection refused"
    );
    let reply = ProviderReply::TokenEndpointFailed("invalid_grant".to_string());
    assert_eq!(
        failure(exchange_code(&mut sso, &code, ExchangeEvent::Provider(reply))).message(),
        "Failed to contact token endpoint: invalid_grant"
    );
    let reply = ProviderReply::NoUserInfoEndpoint("not configured".to_string());
    assert_eq!(
        failure(exchange_code(&mut sso, &code, ExchangeEvent::Provider(reply))).message(),
        "No user_info endpoint: not configured"
    );
    let reply = ProviderReply::UserInfoFailed("timeout".to_string());
    assert_eq!(
        failure(exchange_code(&mut sso, &code, ExchangeEvent::Provider(reply))).message(),
        "Request to user_info endpoint failed: timeout"
    );
    // None of them stored anything under the code.
    assert!(matches!(exchange_code(&mut sso, &code, ExchangeEvent::Begin), ExchangeAction::AskProvider));
    assert!(matches!(
        redeem(&mut sso, &code, RedeemEvent::Begin),
        RedeemAction::Done(Err(SsoError::CodeNotFound))
    ));
}

#[test]
fn exchange_gives_the_public_part_and_remembers_the_code() {
    let mut sso = bridge(vec!["email"]);
    let first = exchanged(&mut sso, "codeA", "nonce-1");
    assert_eq!(first.email, "a@example.com");
    assert_eq!(first.user_name, Some("alice".to_string()));
    // A second call with the same code does not ask for the provider.
    match exchange_code(&mut sso, &"codeA".to_string(), ExchangeEvent::Begin) {
        ExchangeAction::Done(Ok(second)) => {
            assert_eq!(second.email, first.email);
            assert_eq!(second.user_name, first.user_name);
        }
        other => panic!("unexpected action {:?}", other),
    }
    // Another code is unknown.
    assert!(matches!(
        exchange_code(&mut sso, &"codeB".to_string(), ExchangeEvent::Begin),
        ExchangeAction::AskProvider
    ));
    assert!(sso.take_notices().is_empty());
}

#[test]
fn email_of_the_identity_token_comes_first() {
    let mut sso = bridge(vec!["email"]);
    let mut reply = answer("nonce-1");
    reply.id_token = Some(id_token("nonce-1", Some("token@example.com")));
    match exchange_code(&mut sso, &"codeA".to_string(), ExchangeEvent::Provider(ProviderReply::Answered(reply))) {
        ExchangeAction::Done(Ok(info)) => assert_eq!(info.email, "token@example.com"),
        other => panic!("unexpected action {:?}", other),
    }
}

#[test]
fn exchange_without_any_email_fails() {
    let mut sso = bridge(vec!["email"]);
    let mut reply = answer("nonce-1");
    reply.email = None;
    let code = "codeA".to_string();
    let error = failure(exchange_code(&mut sso, &code, ExchangeEvent::Provider(ProviderReply::Answered(reply))));
    assert!(matches!(error, SsoError::MissingEmail));
    assert_eq!(error.message(), "Neither id token nor userinfo contained an email");
    assert!(matches!(exchange_code(&mut sso, &code, ExchangeEvent::Begin), ExchangeAction::AskProvider));
}

#[test]
fn exchange_without_identity_token_fails() {
    let mut sso = bridge(vec!["email"]);
    let mut reply = answer("nonce-1");
    reply.id_token = None;
    let error =
        failure(exchange_code(&mut sso, &"codeA".to_string(), ExchangeEvent::Provider(ProviderReply::Answered(reply))));
    assert!(matches!(error, SsoError::MissingIdToken));
    assert!(sso.take_notices().is_empty());
}

#[test]
fn exchange_with_a_refused_identity_token_fails() {
    let mut sso = bridge(vec!["email"]);
    let mut reply = answer("nonce-1");
    reply.id_token = Some(unsigned_token(vec![
        ("exp", Value::from(now() + 600)),
        ("nonce", Value::from("nonce-1")),
        ("aud", Value::from("someone-else")),
    ]));
    let code = "codeA".to_string();
    let error = failure(exchange_code(&mut sso, &code, ExchangeEvent::Provider(ProviderReply::Answered(reply))));
    assert_eq!(error.message(), "Could not decode id token: InvalidAudience");
    let notices = sso.take_notices();
    assert_eq!(notices.len(), 1);
    assert!(matches!(&notices[0], Notice::TokenClaims { token_name, .. } if token_name == "identity_token"));
    assert!(matches!(exchange_code(&mut sso, &code, ExchangeEvent::Begin), ExchangeAction::AskProvider));
}

#[test]
fn missing_refresh_token_is_noted_when_offline_access_was_asked() {
    let mut sso = bridge(vec!["email", "offline_access"]);
    let mut reply = answer("nonce-1");
    reply.refresh_token = None;
    match exchange_code(&mut sso, &"codeA".to_string(), ExchangeEvent::Provider(ProviderReply::Answered(reply))) {
        ExchangeAction::Done(Ok(info)) => assert_eq!(info.email, "a@example.com"),
        other => panic!("unexpected action {:?}", other),
    }
    let notices = sso.take_notices();
    assert_eq!(notices.len(), 1);
    assert!(matches!(notices[0], Notice::MissingRefreshToken));
    assert_eq!(
        notices[0].line(),
        "Scope offline_access is present but response contain no refresh_token"
    );
    assert!(sso.take_notices().is_empty());
}

#[test]
fn missing_refresh_token_is_not_noted_otherwise() {
    let mut sso = bridge(vec!["email", "profile"]);
    let mut reply = answer("nonce-1");
    reply.refresh_token = None;
    assert!(matches!(
        exchange_code(&mut sso, &"codeA".to_string(), ExchangeEvent::Provider(ProviderReply::Answered(reply))),
        ExchangeAction::Done(Ok(_))
    ));
    assert!(sso.take_notices().is_empty());
    let mut with_token = bridge(vec!["offline_access"]);
    exchanged(&mut with_token, "codeA", "nonce-1");
    assert!(with_token.take_notices().is_empty());
    assert!(bridge(vec!["offline_access"]).settings().offline_access_requested());
    assert!(!bridge(vec!["offline_accessx", "offline"]).settings().offline_access_requested());
    assert!(!bridge(vec![]).settings().offline_access_requested());
}

#[test]
fn identity_from_answer_and_claims() {
    let claims = sso::claims::IdTokenPayload { exp: 9, email: None, nonce: "n".to_string() };
    let user = identity_from(answer("unused"), Ok(claims)).unwrap();
    assert_eq!(user.nonce, "n");
    assert_eq!(user.refresh_token, Some("refresh-secret".to_string()));
    assert_eq!(user.access_token, "access-secret");
    assert_eq!(user.email, "a@example.com");
    assert_eq!(user.user_name, Some("alice".to_string()));
    let refused = identity_from(answer("unused"), Err(SsoError::MissingIdToken));
    assert!(matches!(refused, Err(SsoError::MissingIdToken)));
}

#[test]
fn redeem_of_an_unknown_code_fails() {
    let mut sso = bridge(vec!["email"]);
    match redeem(&mut sso, &"codeA".to_string(), RedeemEvent::Begin) {
        RedeemAction::Done(Err(error)) => {
            assert!(matches!(error, SsoError::CodeNotFound));
            assert_eq!(error.message(), "Failed to retrieve user info from sso cache");
        }
        other => panic!("unexpected action {:?}", other),
    }
}

#[test]
fn redeem_hands_out_the_identity_once() {
    let mut sso = bridge(vec!["email"]);
    let code = "codeA".to_string();
    exchanged(&mut sso, "codeA", "nonce-1");
    let pending = match redeem(&mut sso, &code, RedeemEvent::Begin) {
        RedeemAction::ConsumeNonce(pending) => pending,
        other => panic!("unexpected action {:?}", other),
    };
    assert_eq!(pending.nonce(), "nonce-1");
    let user = match redeem(&mut sso, &code, RedeemEvent::Nonce { pending, outcome: NonceOutcome::Deleted }) {
        RedeemAction::Done(Ok(user)) => user,
        other => panic!("unexpected action {:?}", other),
    };
    assert_eq!(user.nonce, "nonce-1");
    assert_eq!(user.email, "a@example.com");
    assert_eq!(user.user_name, Some("alice".to_string()));
    assert_eq!(user.access_token, "access-secret");
    assert_eq!(user.refresh_token, Some("refresh-secret".to_string()));
    // The code is gone: it can neither be redeemed nor answered from the cache again.
    assert!(matches!(redeem(&mut sso, &code, RedeemEvent::Begin), RedeemAction::Done(Err(SsoError::CodeNotFound))));
    assert!(matches!(exchange_code(&mut sso, &code, ExchangeEvent::Begin), ExchangeAction::AskProvider));
}

#[test]
fn redeem_takes_the_code_out_before_the_nonce_is_consumed() {
    let mut sso = bridge(vec!["email"]);
    let code = "codeA".to_string();
    exchanged(&mut sso, "codeA", "nonce-1");
    assert!(matches!(redeem(&mut sso, &code, RedeemEvent::Begin), RedeemAction::ConsumeNonce(_)));
    assert!(matches!(redeem(&mut sso, &code, RedeemEvent::Begin), RedeemAction::Done(Err(SsoError::CodeNotFound))));
}

#[test]
fn redeem_fails_without_a_record_of_the_nonce() {
    let mut sso = bridge(vec!["email"]);
    let code = "codeA".to_string();
    exchanged(&mut sso, "codeA", "nonce-1");
    let pending = match redeem(&mut sso, &code, RedeemEvent::Begin) {
        RedeemAction::ConsumeNonce(pending) => pending,
        other => panic!("unexpected action {:?}", other),
    };
    match redeem(&mut sso, &code, RedeemEvent::Nonce { pending, outcome: NonceOutcome::Missing }) {
        RedeemAction::Done(Err(error)) => {
            assert!(matches!(error, SsoError::NonceMissing));
            assert_eq!(error.message(), "Failed to retrive nonce from db");
        }
        other => panic!("unexpected action {:?}", other),
    }
}

#[test]
fn redeem_fails_when_the_nonce_cannot_be_deleted() {
    let mut sso = bridge(vec!["email"]);
    let code = "codeA".to_string();
    exchanged(&mut sso, "codeA", "nonce-1");
    let pending = match redeem(&mut sso, &code, RedeemEvent::Begin) {
        RedeemAction::ConsumeNonce(pending) => pending,
        other => panic!("unexpected action {:?}", other),
    };
    let outcome = NonceOutcome::DeleteFailed("database is locked".to_string());
    match redeem(&mut sso, &code, RedeemEvent::Nonce { pending, outcome }) {
        RedeemAction::Done(Err(error)) => {
            assert_eq!(error.message(), "Failed to delete nonce: database is locked");
        }
        other => panic!("unexpected action {:?}", other),
    }
}

#[test]
fn a_later_exchange_replaces_the_identity_under_a_code() {
    let mut sso = bridge(vec!["email"]);
    let code = "codeA".to_string();
    exchanged(&mut sso, "codeA", "nonce-1");
    exchanged(&mut sso, "codeA", "nonce-2");
    match redeem(&mut sso, &code, RedeemEvent::Begin) {
        RedeemAction::ConsumeNonce(pending) => assert_eq!(pending.nonce(), "nonce-2"),
        other => panic!("unexpected action {:?}", other),
    }
}

#[test]
fn code_cache_limits() {
    assert_eq!(bridge(vec!["email"]).cache_limits(), (1000, 600));
    assert_eq!(CodeCache::new().limits(), (1000, 600));
    assert_eq!(CodeCache::with_limits(7, 90).unwrap().limits(), (7, 90));
    assert!(CodeCache::with_limits(7, 31_536_000_000).is_some());
    assert!(CodeCache::with_limits(7, 31_536_000_001).is_none());
    assert!(CodeCache::with_limits(7, u64::MAX).is_none());
}

#[test]
fn code_cache_lookups() {
    let mut codes = CodeCache::new();
    let key = "codeA".to_string();
    assert!(codes.get(&key).is_none());
    let user = AuthenticatedUser {
        nonce: "n".to_string(),
        refresh_token: None,
        access_token: "a".to_string(),
        email: "e@example.com".to_string(),
        user_name: None,
    };
    codes.insert(key.clone(), user.duplicate());
    let found = codes.get(&key).unwrap();
    assert_eq!(found.nonce, "n");
    assert_eq!(found.user_information().email, "e@example.com");
    assert!(codes.get(&"codeB".to_string()).is_none());
    codes.invalidate(&key);
    assert!(codes.get(&key).is_none());
}

#[test]
fn exchanged_code_expires_after_its_time_to_live() {
    let settings = config(vec!["email"]);
    let setup = decoding(&settings);
    let mut sso = Sso::with_codes(settings, setup, CodeCache::with_limits(10, 1).unwrap());
    assert_eq!(sso.cache_limits(), (10, 1));
    let code = "codeA".to_string();
    exchanged(&mut sso, "codeA", "nonce-1");
    assert!(matches!(exchange_code(&mut sso, &code, ExchangeEvent::Begin), ExchangeAction::Done(Ok(_))));
    let start = std::time::Instant::now();
    while start.elapsed() < std::time::Duration::from_millis(1500) {
        std::hint::spin_loop();
    }
    assert!(matches!(exchange_code(&mut sso, &code, ExchangeEvent::Begin), ExchangeAction::AskProvider));
    assert!(matches!(redeem(&mut sso, &code, RedeemEvent::Begin), RedeemAction::Done(Err(SsoError::CodeNotFound))));
}

#[test]
fn authorize_url_steps() {
    let sso = bridge(vec!["email", "profile"]);
    match authorize_url(&sso, AuthorizeEvent::Begin { state: "state1".to_string() }) {
        AuthorizeAction::BuildUrl { state, scopes } => {
            assert_eq!(state, "state1");
            assert_eq!(scopes, vec!["email".to_string(), "profile".to_string()]);
        }
        other => panic!("unexpected action {:?}", other),
    }
    let url = Url::parse("https://sso.example.com/auth?state=state1&nonce=abc").unwrap();
    match authorize_url(&sso, AuthorizeEvent::UrlBuilt { url: url.clone(), nonce: "abc".to_string() }) {
        AuthorizeAction::SaveNonce { url: kept, nonce } => {
            assert_eq!(kept, url);
            assert_eq!(nonce, "abc");
        }
        other => panic!("unexpected action {:?}", other),
    }
    match authorize_url(&sso, AuthorizeEvent::NonceSaved { url: url.clone(), saved: Ok(()) }) {
        AuthorizeAction::Done(Ok(handed)) => assert_eq!(handed, url),
        other => panic!("unexpected action {:?}", other),
    }
    let saved = Err("database is locked".to_string());
    match authorize_url(&sso, AuthorizeEvent::NonceSaved { url, saved }) {
        AuthorizeAction::Done(Err(error)) => {
            assert!(matches!(error, SsoError::NonceSave(_)));
            assert_eq!(error.message(), "database is locked");
        }
        other => panic!("unexpected action {:?}", other),
    }
    match authorize_url(&sso, AuthorizeEvent::ClientUnavailable("no route to host".to_string())) {
        AuthorizeAction::Done(Err(error)) => {
            assert_eq!(error.message(), "Failed to discover OpenID provider: no route to host");
        }
        other => panic!("unexpected action {:?}", other),
    }
}

#[test]
fn refresh_needs_a_stored_refresh_token() {
    let mut sso = bridge(vec!["email"]);
    let claims = stored_claims(None);
    match exchange_refresh_token(&mut sso, &device(), &user(), &claims, RefreshEvent::Begin) {
        RefreshAction::Done(Err(error)) => {
            assert!(matches!(error, SsoError::MissingRefreshToken));
            assert_eq!(
                error.message(),
                "Impossible to retrieve new access token, refresh_token is missing"
            );
        }
        other => panic!("unexpected action {:?}", other),
    }
    let reply = RefreshReply::Answered { access_token: "x".to_string(), refresh_token: None };
    assert!(matches!(
        exchange_refresh_token(&mut sso, &device(), &user(), &claims, RefreshEvent::Provider(reply)),
        RefreshAction::Done(Err(SsoError::MissingRefreshToken))
    ));
}

#[test]
fn refresh_presents_the_stored_refresh_token() {
    let mut sso = bridge(vec!["email"]);
    let claims = stored_claims(Some("stored-refresh"));
    match exchange_refresh_token(&mut sso, &device(), &user(), &claims, RefreshEvent::Begin) {
        RefreshAction::AskProvider { refresh_token } => assert_eq!(refresh_token, "stored-refresh"),
        other => panic!("unexpected action {:?}", other),
    }
}

#[test]
fn refresh_fails_with_the_provider() {
    let mut sso = bridge(vec!["email"]);
    let claims = stored_claims(Some("stored-refresh"));
    let reply = RefreshReply::Failed("ServerResponse(invalid_grant)".to_string());
    match exchange_refresh_token(&mut sso, &device(), &user(), &claims, RefreshEvent::Provider(reply)) {
        RefreshAction::Done(Err(error)) => assert_eq!(
            error.message(),
            "Request to exchange_refresh_token endpoint failed: ServerResponse(invalid_grant)"
        ),
        other => panic!("unexpected action {:?}", other),
    }
    let reply = RefreshReply::ClientUnavailable("connection refused".to_string());
    assert!(matches!(
        exchange_refresh_token(&mut sso, &device(), &user(), &claims, RefreshEvent::Provider(reply)),
        RefreshAction::Done(Err(SsoError::Discovery(_)))
    ));
}

#[test]
fn refresh_without_a_new_token_keeps_the_stored_one() {
    let mut sso = bridge(vec!["email"]);
    let claims = stored_claims(Some("stored-refresh"));
    let expiry = now() + 300;
    let reply = RefreshReply::Answered {
        access_token: unsigned_token(vec![("exp", Value::from(expiry)), ("iat", Value::from(1700000000))]),
        refresh_token: None,
    };
    let before = now();
    let tokens = match exchange_refresh_token(&mut sso, &device(), &user(), &claims, RefreshEvent::Provider(reply)) {
        RefreshAction::Done(Ok(tokens)) => tokens,
        other => panic!("unexpected action {:?}", other),
    };
    let after = now();
    let rolled = tokens.refresh_claims.unwrap();
    assert_eq!(rolled.refresh_token, Some("stored-refresh".to_string()));
    assert_eq!(rolled.iss, "https://vault.example.com|login");
    assert_eq!(rolled.device_token, "device-refresh-1");
    assert!(before <= rolled.nbf && rolled.nbf <= after);
    assert_eq!(rolled.exp - rolled.nbf, 2_592_000);
    assert_eq!(tokens.access_claims.nbf, 1700000000);
    assert_eq!(tokens.access_claims.exp, expiry);
    let notices = sso.take_notices();
    assert_eq!(notices.len(), 1);
    assert!(matches!(notices[0], Notice::OpaqueRefreshToken));
}

#[test]
fn refresh_with_a_new_token_replaces_the_stored_one() {
    let mut sso = bridge(vec!["email"]);
    let claims = stored_claims(Some("stored-refresh"));
    let refresh_expiry = now() + 86_400;
    let new_refresh = unsigned_token(vec![
        ("exp", Value::from(refresh_expiry)),
        ("iat", Value::from(1700000400)),
    ]);
    let reply = RefreshReply::Answered {
        access_token: unsigned_token(vec![("exp", Value::from(now() + 300))]),
        refresh_token: Some(new_refresh.clone()),
    };
    let tokens = match exchange_refresh_token(&mut sso, &device(), &user(), &claims, RefreshEvent::Provider(reply)) {
        RefreshAction::Done(Ok(tokens)) => tokens,
        other => panic!("unexpected action {:?}", other),
    };
    let rolled = tokens.refresh_claims.unwrap();
    assert_eq!(rolled.refresh_token, Some(new_refresh));
    assert_eq!(rolled.nbf, 1700000400);
    assert_eq!(rolled.exp, refresh_expiry);
    assert!(sso.take_notices().is_empty());
}

#[test]
fn refresh_fails_on_an_unreadable_access_token() {
    let mut sso = bridge(vec!["email"]);
    let claims = stored_claims(Some("stored-refresh"));
    let reply = RefreshReply::Answered { access_token: "opaque".to_string(), refresh_token: None };
    match exchange_refresh_token(&mut sso, &device(), &user(), &claims, RefreshEvent::Provider(reply)) {
        RefreshAction::Done(Err(error)) => {
            assert_eq!(error.message(), "Could not decode access_token: InvalidToken");
        }
        other => panic!("unexpected action {:?}", other),
    }
}

#[test]
fn client_cache_keeps_what_discovery_gave() {
    let mut clients: ClientCache<String> = ClientCache::new();
    assert!(clients.cached_client().is_none());
    match clients.get_client(Err("connection refused".to_string())) {
        Err(error) => {
            assert!(matches!(error, SsoError::Discovery(_)));
            assert_eq!(error.message(), "Failed to discover OpenID provider: connection refused");
        }
        Ok(()) => panic!("a failure was taken for a client"),
    }
    // A failure is not kept.
    assert!(clients.cached_client().is_none());
    assert!(clients.get_client(Ok("client".to_string())).is_ok());
    assert_eq!(clients.cached_client(), Some(&"client".to_string()));
    // A later failure does not drop the client.
    assert!(clients.get_client(Err("timeout".to_string())).is_err());
    assert_eq!(clients.cached_client(), Some(&"client".to_string()));
    assert!(clients.get_client(Ok("newer".to_string())).is_ok());
    assert_eq!(clients.cached_client(), Some(&"newer".to_string()));
    clients.invalidate();
    assert!(clients.cached_client().is_none());
}

#[test]
fn begun_exchange_from_a_lookup() {
    assert!(matches!(exchange_from_lookup(None), ExchangeAction::AskProvider));
    let found = AuthenticatedUser {
        nonce: "n".to_string(),
        refresh_token: Some("r".to_string()),
        access_token: "a".to_string(),
        email: "e@example.com".to_string(),
        user_name: Some("eve".to_string()),
    };
    match exchange_from_lookup(Some(found)) {
        ExchangeAction::Done(Ok(info)) => {
            assert_eq!(info.email, "e@example.com");
            assert_eq!(info.user_name, Some("eve".to_string()));
        }
        other => panic!("unexpected action {:?}", other),
    }
}

#[test]
fn begun_redemption_from_a_lookup() {
    let mut codes = CodeCache::new();
    let code = "codeA".to_string();
    let user = AuthenticatedUser {
        nonce: "n".to_string(),
        refresh_token: None,
        access_token: "a".to_string(),
        email: "e@example.com".to_string(),
        user_name: None,
    };
    codes.insert(code.clone(), user.duplicate());
    codes.insert("codeB".to_string(), user.duplicate());
    assert!(matches!(
        redeem_from_lookup(&mut codes, &code, None),
        RedeemAction::Done(Err(SsoError::CodeNotFound))
    ));
    // Nothing was found, so nothing was dropped.
    assert!(codes.get(&code).is_some());
    let found = codes.get(&code);
    match redeem_from_lookup(&mut codes, &code, found) {
        RedeemAction::ConsumeNonce(pending) => assert_eq!(pending.nonce(), "n"),
        other => panic!("unexpected action {:?}", other),
    }
    assert!(codes.get(&code).is_none());
    assert!(codes.get(&"codeB".to_string()).is_some());
}
