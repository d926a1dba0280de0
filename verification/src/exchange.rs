//! Resolving an authorization code to an email.
//!
//! The provider accepts a code once, the application consults it twice: to
//! learn the email for its second-factor decision, and to finish the sign-in.
//! The first consultation asks the provider and keeps what it learnt in the
//! cache; every later one is answered from the cache.
//!
//! The caller performs the requests. [`exchange_code`] and the two `answered`
//! functions each return an [`Exchange`], which is either the end of the call
//! or the next request to send.

use crate::cache::ExchangeCache;
use crate::claims::{claims_of_token, claims_view, read_claims_unverified, Claims, ClaimsView};
use crate::error::{ErrorView, SsoError};
use crate::identity::{identity_view, may_find, text_view, CachedIdentity, IdentityView};
use vstd::prelude::*;

verus! {

/// What the provider's token endpoint returned for a code.
#[derive(Debug)]
pub struct ProviderTokens {
    pub access_token: String,
    /// Absent where the provider issues no refresh token.
    pub refresh_token: Option<String>,
    pub id_token: Option<String>,
}

/// The mathematical value of [`ProviderTokens`].
pub struct TokensView {
    pub access_token: Seq<char>,
    pub refresh_token: Option<Seq<char>>,
    pub id_token: Option<Seq<char>>,
}

impl View for ProviderTokens {
    type V = TokensView;

    open spec fn view(&self) -> TokensView {
        TokensView {
            access_token: self.access_token@,
            refresh_token: text_view(self.refresh_token),
            id_token: text_view(self.id_token),
        }
    }
}

/// What came of asking the token endpoint to exchange a code.
#[derive(Debug)]
pub enum TokenReply {
    /// The endpoint accepted the code and returned these tokens.
    Tokens(ProviderTokens),
    /// The issuer or the redirect address is misconfigured: nothing was sent.
    Misconfigured(String),
    /// The provider's metadata could not be discovered: nothing was sent.
    Undiscovered(String),
    /// The endpoint could not be reached, or rejected the code.
    Rejected(String),
}

/// The mathematical value of a [`TokenReply`].
pub enum TokenReplyView {
    Tokens(TokensView),
    Misconfigured(Seq<char>),
    Undiscovered(Seq<char>),
    Rejected(Seq<char>),
}

impl View for TokenReply {
    type V = TokenReplyView;

    open spec fn view(&self) -> TokenReplyView {
        match self {
            TokenReply::Tokens(tokens) => TokenReplyView::Tokens(tokens@),
            TokenReply::Misconfigured(cause) => TokenReplyView::Misconfigured(cause@),
            TokenReply::Undiscovered(cause) => TokenReplyView::Undiscovered(cause@),
            TokenReply::Rejected(cause) => TokenReplyView::Rejected(cause@),
        }
    }
}

/// The request to exchange a code at the provider's token endpoint.
#[derive(Debug)]
pub struct TokenRequest {
    pub code: String,
}

/// The request to ask the provider's userinfo endpoint for the email that the
/// identity token did not name, with what is already known of the identity.
#[derive(Debug)]
pub struct UserInfoRequest {
    pub code: String,
    /// The token to present at the userinfo endpoint.
    pub access_token: String,
    pub nonce: String,
    pub refresh_token: String,
}

/// The mathematical value of a [`UserInfoRequest`].
pub struct UserInfoRequestView {
    pub code: Seq<char>,
    pub access_token: Seq<char>,
    pub nonce: Seq<char>,
    pub refresh_token: Seq<char>,
}

impl View for UserInfoRequest {
    type V = UserInfoRequestView;

    open spec fn view(&self) -> UserInfoRequestView {
        UserInfoRequestView {
            code: self.code@,
            access_token: self.access_token@,
            nonce: self.nonce@,
            refresh_token: self.refresh_token@,
        }
    }
}

/// What came of asking the userinfo endpoint.
#[derive(Debug)]
pub enum UserInfoReply {
    /// The endpoint answered; its claims name this email, or none.
    Answered(Option<String>),
    /// The provider offers no userinfo endpoint.
    NoEndpoint(String),
    /// The request failed.
    RequestFailed(String),
}

/// The mathematical value of a [`UserInfoReply`].
pub enum UserInfoReplyView {
    Answered(Option<Seq<char>>),
    NoEndpoint(Seq<char>),
    RequestFailed(Seq<char>),
}

impl View for UserInfoReply {
    type V = UserInfoReplyView;

    open spec fn view(&self) -> UserInfoReplyView {
        match self {
            UserInfoReply::Answered(email) => UserInfoReplyView::Answered(text_view(*email)),
            UserInfoReply::NoEndpoint(cause) => UserInfoReplyView::NoEndpoint(cause@),
            UserInfoReply::RequestFailed(cause) => UserInfoReplyView::RequestFailed(cause@),
        }
    }
}

/// Where a call of `exchange_code` stands.
#[derive(Debug)]
pub enum Exchange {
    /// The call ends with this email.
    Resolved(String),
    /// The call ends with this failure.
    Failed(SsoError),
    /// The code must be exchanged at the token endpoint.
    NeedsTokens(TokenRequest),
    /// The userinfo endpoint must be asked.
    NeedsUserInfo(UserInfoRequest),
}

/// The mathematical value of an [`Exchange`].
pub enum ExchangeView {
    Resolved(Seq<char>),
    Failed(ErrorView),
    NeedsTokens(Seq<char>),
    NeedsUserInfo(UserInfoRequestView),
}

impl View for Exchange {
    type V = ExchangeView;

    open spec fn view(&self) -> ExchangeView {
        match self {
            Exchange::Resolved(email) => ExchangeView::Resolved(email@),
            Exchange::Failed(error) => ExchangeView::Failed(error@),
            Exchange::NeedsTokens(request) => ExchangeView::NeedsTokens(request.code@),
            Exchange::NeedsUserInfo(request) => ExchangeView::NeedsUserInfo(request@),
        }
    }
}

/// What `exchange_code` may answer for a code, given the identities written
/// to the cache: the email written for the code, or the request to ask the
/// provider. A code with no identity written always leads to the provider.
/// One with an identity may, since the cache drops entries by age and under
/// capacity pressure.
pub open spec fn begins_exchange(
    cached: Map<Seq<char>, IdentityView>,
    code: Seq<char>,
    step: ExchangeView,
) -> bool {
    ||| step == ExchangeView::NeedsTokens(code)
    ||| cached.contains_key(code) && step == ExchangeView::Resolved(cached[code].email)
}

/// The state after the cache was looked up for a code: the email of the
/// identity found, or the request to ask the provider.
pub open spec fn after_lookup(code: Seq<char>, found: Option<IdentityView>) -> ExchangeView {
    match found {
        Some(identity) => ExchangeView::Resolved(identity.email),
        None => ExchangeView::NeedsTokens(code),
    }
}

/// What reading the identity token of a reply may give: nothing, or the
/// claims of that very token.
pub open spec fn may_read(reply: TokenReplyView, claims: Option<ClaimsView>) -> bool {
    claims is Some ==> (reply matches TokenReplyView::Tokens(tokens)
        && tokens.id_token matches Some(token) && claims == claims_of_token(token))
}

/// The refresh token to keep: the provider's, or the empty text.
pub open spec fn kept_refresh_token(issued: Option<Seq<char>>) -> Seq<char> {
    match issued {
        Some(token) => token,
        None => Seq::empty(),
    }
}

/// The cache and the state after the token endpoint's reply for `code`,
/// where `claims` is what reading the identity token gave.
///
/// In order: a request that was not sent or failed, a reply without
/// identity token and an unreadable identity token each end the call and
/// leave the cache as it was. Readable claims with an email resolve the call and are written to
/// the cache under the code; without an email the userinfo endpoint is next.
pub open spec fn after_tokens(
    cached: Map<Seq<char>, IdentityView>,
    code: Seq<char>,
    reply: TokenReplyView,
    claims: Option<ClaimsView>,
) -> (Map<Seq<char>, IdentityView>, ExchangeView) {
    match reply {
        TokenReplyView::Misconfigured(cause) => (
            cached,
            ExchangeView::Failed(ErrorView::Configuration(cause)),
        ),
        TokenReplyView::Undiscovered(cause) => (
            cached,
            ExchangeView::Failed(ErrorView::Discovery(cause)),
        ),
        TokenReplyView::Rejected(cause) => (
            cached,
            ExchangeView::Failed(ErrorView::TokenExchange(cause)),
        ),
        TokenReplyView::Tokens(tokens) => match (tokens.id_token, claims) {
            (None, _) => (cached, ExchangeView::Failed(ErrorView::MissingIdentityToken)),
            (Some(_), None) => (cached, ExchangeView::Failed(ErrorView::IdentityTokenDecode)),
            (Some(_), Some(claims)) => match claims.email {
                Some(email) => (
                    cached.insert(
                        code,
                        IdentityView {
                            nonce: claims.nonce,
                            refresh_token: kept_refresh_token(tokens.refresh_token),
                            email,
                        },
                    ),
                    ExchangeView::Resolved(email),
                ),
                None => (
                    cached,
                    ExchangeView::NeedsUserInfo(
                        UserInfoRequestView {
                            code,
                            access_token: tokens.access_token,
                            nonce: claims.nonce,
                            refresh_token: kept_refresh_token(tokens.refresh_token),
                        },
                    ),
                ),
            },
        },
    }
}

/// The cache and the state after the userinfo endpoint's reply.
pub open spec fn after_user_info(
    cached: Map<Seq<char>, IdentityView>,
    request: UserInfoRequestView,
    reply: UserInfoReplyView,
) -> (Map<Seq<char>, IdentityView>, ExchangeView) {
    match reply {
        UserInfoReplyView::NoEndpoint(cause) => (
            cached,
            ExchangeView::Failed(ErrorView::UserInfoEndpoint(cause)),
        ),
        UserInfoReplyView::RequestFailed(cause) => (
            cached,
            ExchangeView::Failed(ErrorView::UserInfoRequest(cause)),
        ),
        UserInfoReplyView::Answered(None) => (
            cached,
            ExchangeView::Failed(ErrorView::MissingEmail),
        ),
        UserInfoReplyView::Answered(Some(email)) => (
            cached.insert(
                request.code,
                IdentityView { nonce: request.nonce, refresh_token: request.refresh_token, email },
            ),
            ExchangeView::Resolved(email),
        ),
    }
}

/// Decides on what the cache held for a code: the email of the identity
/// found ends the call; with nothing found the provider must exchange the
/// code.
pub fn exchange_found(code: &String, found: Option<CachedIdentity>) -> (step: Exchange)
    ensures
        step@ == after_lookup(code@, identity_view(found)),
{
    match found {
        Some(identity) => Exchange::Resolved(identity.email),
        None => Exchange::NeedsTokens(TokenRequest { code: code.clone() }),
    }
}

/// Starts resolving a code: answers from the cache where it holds the code,
/// and asks for the provider exchange where it does not.
pub fn exchange_code(cache: &ExchangeCache, code: &String) -> (step: Exchange)
    ensures
        begins_exchange(cache@, code@, step@),
        exists|found: Option<IdentityView>|
            may_find(cache@, code@, found) && step@ == #[trigger] after_lookup(code@, found),
{
    let found = cache.lookup(code);
    assert(may_find(cache@, code@, identity_view(found)));
    exchange_found(code, found)
}

impl TokenRequest {
    /// Takes the token endpoint's reply together with the claims read from
    /// its identity token, and decides how the call goes on.
    pub fn answered_with_claims(
        self,
        cache: &mut ExchangeCache,
        reply: TokenReply,
        claims: Option<Claims>,
    ) -> (step: Exchange)
        ensures
            (final(cache)@, step@) == after_tokens(
                old(cache)@,
                self.code@,
                reply@,
                claims_view(claims),
            ),
            final(cache).max_entries() == old(cache).max_entries(),
            final(cache).lifetime_secs() == old(cache).lifetime_secs(),
    {
        let tokens = match reply {
            TokenReply::Tokens(tokens) => tokens,
            TokenReply::Misconfigured(cause) => {
                return Exchange::Failed(SsoError::Configuration(cause));
            },
            TokenReply::Undiscovered(cause) => {
                return Exchange::Failed(SsoError::Discovery(cause));
            },
            TokenReply::Rejected(cause) => {
                return Exchange::Failed(SsoError::TokenExchange(cause));
            },
        };
        if tokens.id_token.is_none() {
            return Exchange::Failed(SsoError::MissingIdentityToken);
        }
        let claims = match claims {
            Some(claims) => claims,
            None => { return Exchange::Failed(SsoError::IdentityTokenDecode); },
        };
        let refresh_token = match tokens.refresh_token {
            Some(token) => token,
            None => String::new(),
        };
        match claims.email {
            Some(email) => {
                let identity = CachedIdentity {
                    nonce: claims.nonce,
                    refresh_token,
                    email: email.clone(),
                };
                cache.insert(self.code, identity);
                Exchange::Resolved(email)
            },
            None => Exchange::NeedsUserInfo(
                UserInfoRequest {
                    code: self.code,
                    access_token: tokens.access_token,
                    nonce: claims.nonce,
                    refresh_token,
                },
            ),
        }
    }

    /// Takes the token endpoint's reply, reads the claims of its identity
    /// token without checking the signature, and decides how the call goes
    /// on. What is read is the reply's identity token and nothing else;
    /// whether it is readable is for the reader to say. The outcome is that
    /// of [`after_tokens`], for the token's own claims or for none.
    pub fn answered(self, cache: &mut ExchangeCache, reply: TokenReply) -> (step: Exchange)
        ensures
            exists|claims: Option<ClaimsView>|
                may_read(reply@, claims) && (final(cache)@, step@) == #[trigger] after_tokens(
                    old(cache)@,
                    self.code@,
                    reply@,
                    claims,
                ),
            final(cache).max_entries() == old(cache).max_entries(),
            final(cache).lifetime_secs() == old(cache).lifetime_secs(),
    {
        let claims = match &reply {
            TokenReply::Tokens(tokens) => match &tokens.id_token {
                Some(id_token) => read_claims_unverified(id_token.as_str()),
                None => None,
            },
            _ => None,
        };
        assert(may_read(reply@, claims_view(claims)));
        self.answered_with_claims(cache, reply, claims)
    }
}

impl UserInfoRequest {
    /// Takes the userinfo endpoint's reply and ends the call: with the email
    /// it names, which is written to the cache with the rest of the identity,
    /// or with a failure.
    pub fn answered(self, cache: &mut ExchangeCache, reply: UserInfoReply) -> (step: Exchange)
        ensures
            (final(cache)@, step@) == after_user_info(old(cache)@, self@, reply@),
            final(cache).max_entries() == old(cache).max_entries(),
            final(cache).lifetime_secs() == old(cache).lifetime_secs(),
    {
        match reply {
            UserInfoReply::NoEndpoint(cause) => Exchange::Failed(SsoError::UserInfoEndpoint(cause)),
            UserInfoReply::RequestFailed(cause) => Exchange::Failed(
                SsoError::UserInfoRequest(cause),
            ),
            UserInfoReply::Answered(None) => Exchange::Failed(SsoError::MissingEmail),
            UserInfoReply::Answered(Some(email)) => {
                let identity = CachedIdentity {
                    nonce: self.nonce,
                    refresh_token: self.refresh_token,
                    email: email.clone(),
                };
                cache.insert(self.code, identity);
                Exchange::Resolved(email)
            },
        }
    }
}

} // verus!
