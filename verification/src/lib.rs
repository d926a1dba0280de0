//! Single-sign-on bridge between an application's session layer and an OpenID
//! Connect identity provider.
//!
//! The crate holds the decisions of the flow: when the provider is asked, what
//! is kept for an authorization code between the two calls that consult it,
//! and when the refresh token is released. Network and database work is done
//! by the caller, who hands each reply back to the function that decides on it.

pub mod authorize;
pub mod cache;
pub mod claims;
pub mod error;
pub mod exchange;
pub mod identity;
pub mod laws;
pub mod redeem;

pub use crate::authorize::authorize_url;
pub use crate::cache::ExchangeCache;
pub use crate::error::SsoError;
pub use crate::exchange::exchange_code;
pub use crate::redeem::redeem;
