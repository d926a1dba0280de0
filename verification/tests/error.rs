use sso_bridge::error::SsoError;

#[test]
fn messages_without_a_cause_are_fixed() {
    assert_eq!(SsoError::MissingIdentityToken.message(), "Token response did not contain an id_token");
    assert_eq!(SsoError::IdentityTokenDecode.message(), "Could not decode id token");
    assert_eq!(SsoError::MissingEmail.message(), "Neither id token nor userinfo contained an email");
    assert_eq!(SsoError::CacheMiss.message(), "Failed to retrieve user info from sso cache");
    assert_eq!(SsoError::NonceNotFound.message(), "Failed to retrieve nonce from db");
}

#[test]
fn messages_with_a_cause_end_in_it() {
    let cause = || "boom".to_string();
    assert_eq!(SsoError::Configuration(cause()).message(), "Invalid OpenID provider configuration: boom");
    assert_eq!(SsoError::Discovery(cause()).message(), "Failed to discover OpenID provider: boom");
    assert_eq!(SsoError::NoncePersistence(cause()).message(), "Failed to save nonce: boom");
    assert_eq!(SsoError::TokenExchange(cause()).message(), "Failed to contact token endpoint: boom");
    assert_eq!(SsoError::UserInfoEndpoint(cause()).message(), "No user_info endpoint: boom");
    assert_eq!(SsoError::UserInfoRequest(cause()).message(), "Request to user_info endpoint failed: boom");
    assert_eq!(SsoError::NonceDeletion(cause()).message(), "Failed to delete nonce: boom");
}

#[test]
fn empty_cause_leaves_the_sentence() {
    assert_eq!(SsoError::NonceDeletion(String::new()).message(), "Failed to delete nonce: ");
}
