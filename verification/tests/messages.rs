use sso::error::SsoError;
use sso::notice::Notice;

#[test]
fn failure_messages() {
    let text = |s: &str| s.to_string();
    assert_eq!(
        SsoError::InvalidKey(text("InvalidKeyFormat")).message(),
        "Failed to decode optional SSO public RSA Key, format should exactly match:\n\
         -----BEGIN PUBLIC KEY-----\n\
         ...\n\
         -----END PUBLIC KEY-----\n\
         Error: InvalidKeyFormat"
    );
    assert_eq!(SsoError::Discovery(text("x")).message(), "Failed to discover OpenID provider: x");
    assert_eq!(SsoError::TokenEndpoint(text("x")).message(), "Failed to contact token endpoint: x");
    assert_eq!(SsoError::NoUserInfoEndpoint(text("x")).message(), "No user_info endpoint: x");
    assert_eq!(SsoError::UserInfoRequest(text("x")).message(), "Request to user_info endpoint failed: x");
    assert_eq!(SsoError::MissingIdToken.message(), "Token response did not contain an id_token");
    assert_eq!(SsoError::IdTokenDecode(text("x")).message(), "Could not decode id token: x");
    assert_eq!(
        SsoError::TokenDecode { token_name: text("refresh_token"), detail: text("x") }.message(),
        "Could not decode refresh_token: x"
    );
    assert_eq!(SsoError::MissingEmail.message(), "Neither id token nor userinfo contained an email");
    assert_eq!(SsoError::NonceSave(text("disk full")).message(), "disk full");
    assert_eq!(SsoError::NonceMissing.message(), "Failed to retrive nonce from db");
    assert_eq!(SsoError::NonceDelete(text("x")).message(), "Failed to delete nonce: x");
    assert_eq!(SsoError::CodeNotFound.message(), "Failed to retrieve user info from sso cache");
    assert_eq!(
        SsoError::RefreshEndpoint(text("x")).message(),
        "Request to exchange_refresh_token endpoint failed: x"
    );
    assert_eq!(
        SsoError::MissingRefreshToken.message(),
        "Impossible to retrieve new access token, refresh_token is missing"
    );
}

#[test]
fn failure_messages_with_empty_details() {
    assert_eq!(SsoError::Discovery(String::new()).message(), "Failed to discover OpenID provider: ");
    assert_eq!(SsoError::NonceSave(String::new()).message(), "");
    assert_eq!(
        SsoError::TokenDecode { token_name: String::new(), detail: String::new() }.message(),
        "Could not decode : "
    );
}

#[test]
fn notice_lines() {
    let text = |s: &str| s.to_string();
    assert_eq!(
        Notice::KeyFileUnreadable { path: text("/k.pem"), detail: text("denied") }.line(),
        "[INFO] Can't read optional SSO public key at /k.pem : denied"
    );
    assert_eq!(
        Notice::TokenClaims { token_name: text("access_token"), claims: text("{\"exp\":1}") }.line(),
        "Token access_token: {\"exp\":1}"
    );
    assert_eq!(
        Notice::MissingRefreshToken.line(),
        "Scope offline_access is present but response contain no refresh_token"
    );
    assert_eq!(
        Notice::OpaqueRefreshToken.line(),
        "Could not decode refresh_token, using the default refresh validity"
    );
}

#[test]
fn text_helpers() {
    let list = vec!["a".to_string(), "offline_access".to_string()];
    assert!(sso::text::holds_text(&list, "a"));
    assert!(sso::text::holds_text(&list, "offline_access"));
    assert!(!sso::text::holds_text(&list, "offline"));
    assert!(!sso::text::holds_text(&Vec::new(), ""));
    assert_eq!(sso::text::copy_texts(&list), list);
    assert_eq!(sso::text::copy_opt_text(&Some("x".to_string())), Some("x".to_string()));
    assert_eq!(sso::text::copy_opt_text(&None), None);
    assert_eq!(sso::text::copy_text(&"x".to_string()), "x");
}

#[test]
fn redirect_cookie_name() {
    assert_eq!(sso::COOKIE_NAME_REDIRECT, "sso_redirect_url");
}
