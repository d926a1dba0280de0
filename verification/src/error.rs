//! The failures of the flow. Each ends the call in which it occurs; none is
//! retried here.

use vstd::prelude::*;
use vstd::string::StringExecFns;

verus! {

/// Why a call failed.
#[derive(Debug)]
pub enum SsoError {
    /// The issuer, the authorization endpoint or the redirect address is no usable URL.
    Configuration(String),
    /// The provider's metadata could not be discovered.
    Discovery(String),
    /// The nonce of a new authorization request could not be stored.
    NoncePersistence(String),
    /// The token endpoint could not be reached or rejected the code.
    TokenExchange(String),
    /// The token response held no identity token.
    MissingIdentityToken,
    /// The identity token's claims could not be read.
    IdentityTokenDecode,
    /// The provider offers no userinfo endpoint to ask.
    UserInfoEndpoint(String),
    /// The request to the userinfo endpoint failed.
    UserInfoRequest(String),
    /// Neither the identity token nor userinfo named an email.
    MissingEmail,
    /// The cache holds no identity for the code.
    CacheMiss,
    /// The nonce of the cached identity is not in the nonce store.
    NonceNotFound,
    /// The nonce was found but could not be deleted.
    NonceDeletion(String),
}

/// The mathematical value of an [`SsoError`].
pub enum ErrorView {
    Configuration(Seq<char>),
    Discovery(Seq<char>),
    NoncePersistence(Seq<char>),
    TokenExchange(Seq<char>),
    MissingIdentityToken,
    IdentityTokenDecode,
    UserInfoEndpoint(Seq<char>),
    UserInfoRequest(Seq<char>),
    MissingEmail,
    CacheMiss,
    NonceNotFound,
    NonceDeletion(Seq<char>),
}

impl View for SsoError {
    type V = ErrorView;

    open spec fn view(&self) -> ErrorView {
        match self {
            SsoError::Configuration(cause) => ErrorView::Configuration(cause@),
            SsoError::Discovery(cause) => ErrorView::Discovery(cause@),
            SsoError::NoncePersistence(cause) => ErrorView::NoncePersistence(cause@),
            SsoError::TokenExchange(cause) => ErrorView::TokenExchange(cause@),
            SsoError::MissingIdentityToken => ErrorView::MissingIdentityToken,
            SsoError::IdentityTokenDecode => ErrorView::IdentityTokenDecode,
            SsoError::UserInfoEndpoint(cause) => ErrorView::UserInfoEndpoint(cause@),
            SsoError::UserInfoRequest(cause) => ErrorView::UserInfoRequest(cause@),
            SsoError::MissingEmail => ErrorView::MissingEmail,
            SsoError::CacheMiss => ErrorView::CacheMiss,
            SsoError::NonceNotFound => ErrorView::NonceNotFound,
            SsoError::NonceDeletion(cause) => ErrorView::NonceDeletion(cause@),
        }
    }
}

impl ErrorView {
    /// The text shown for the failure: a fixed sentence, followed by the
    /// cause where the failure carries one.
    pub open spec fn message(self) -> Seq<char> {
        match self {
            ErrorView::Configuration(cause) => "Invalid OpenID provider configuration: "@
                + cause,
            ErrorView::Discovery(cause) => "Failed to discover OpenID provider: "@ + cause,
            ErrorView::NoncePersistence(cause) => "Failed to save nonce: "@ + cause,
            ErrorView::TokenExchange(cause) => "Failed to contact token endpoint: "@ + cause,
            ErrorView::MissingIdentityToken => "Token response did not contain an id_token"@,
            ErrorView::IdentityTokenDecode => "Could not decode id token"@,
            ErrorView::UserInfoEndpoint(cause) => "No user_info endpoint: "@ + cause,
            ErrorView::UserInfoRequest(cause) => "Request to user_info endpoint failed: "@
                + cause,
            ErrorView::MissingEmail => "Neither id token nor userinfo contained an email"@,
            ErrorView::CacheMiss => "Failed to retrieve user info from sso cache"@,
            ErrorView::NonceNotFound => "Failed to retrieve nonce from db"@,
            ErrorView::NonceDeletion(cause) => "Failed to delete nonce: "@ + cause,
        }
    }
}

/// The view of a store's acknowledgement: done, or why not.
pub open spec fn outcome_view(outcome: Result<(), String>) -> Result<(), Seq<char>> {
    match outcome {
        Ok(()) => Ok(()),
        Err(cause) => Err(cause@),
    }
}

impl SsoError {
    /// The text shown for the failure.
    pub fn message(&self) -> (text: String)
        ensures
            text@ == self@.message(),
    {
        match self {
            SsoError::Configuration(cause) => String::from_str(
                "Invalid OpenID provider configuration: ",
            ).concat(cause.as_str()),
            SsoError::Discovery(cause) => String::from_str(
                "Failed to discover OpenID provider: ",
            ).concat(cause.as_str()),
            SsoError::NoncePersistence(cause) => String::from_str("Failed to save nonce: ").concat(
                cause.as_str(),
            ),
            SsoError::TokenExchange(cause) => String::from_str(
                "Failed to contact token endpoint: ",
            ).concat(cause.as_str()),
            SsoError::MissingIdentityToken => String::from_str(
                "Token response did not contain an id_token",
            ),
            SsoError::IdentityTokenDecode => String::from_str("Could not decode id token"),
            SsoError::UserInfoEndpoint(cause) => String::from_str("No user_info endpoint: ").concat(
                cause.as_str(),
            ),
            SsoError::UserInfoRequest(cause) => String::from_str(
                "Request to user_info endpoint failed: ",
            ).concat(cause.as_str()),
            SsoError::MissingEmail => String::from_str(
                "Neither id token nor userinfo contained an email",
            ),
            SsoError::CacheMiss => String::from_str("Failed to retrieve user info from sso cache"),
            SsoError::NonceNotFound => String::from_str("Failed to retrieve nonce from db"),
            SsoError::NonceDeletion(cause) => String::from_str("Failed to delete nonce: ").concat(
                cause.as_str(),
            ),
        }
    }
}

} // verus!
