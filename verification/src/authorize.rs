//! Starting a sign-in: the address to send the user to, and the nonce that
//! must be on record before the user is sent there.
//!
//! The caller discovers the provider's metadata and owns the nonce store.
//! [`authorize_url`] takes what discovery gave and prepares the request; the
//! address is handed out by [`NonceSave::answered`] only once the nonce store
//! has acknowledged the nonce.

use crate::error::{outcome_view, ErrorView, SsoError};
use crate::identity::text_view;
use openidconnect::{
    AuthUrl, AuthenticationFlow, ClientId, CsrfToken, IssuerUrl, Nonce, RedirectUrl, Scope,
};
use vstd::prelude::*;
use vstd::string::StringExecFns;

verus! {

/// The number of characters of a freshly drawn nonce or state: sixteen
/// random bytes in unpadded base64.
pub const RANDOM_TOKEN_CHARS: usize = 22;

/// How this application is registered with the provider.
#[derive(Debug)]
pub struct ClientSettings {
    /// The provider's issuer address.
    pub issuer: String,
    pub client_id: String,
    /// The address the provider sends the user back to.
    pub redirect_url: String,
}

/// The mathematical value of [`ClientSettings`].
pub struct SettingsView {
    pub issuer: Seq<char>,
    pub client_id: Seq<char>,
    pub redirect_url: Seq<char>,
}

impl View for ClientSettings {
    type V = SettingsView;

    open spec fn view(&self) -> SettingsView {
        SettingsView {
            issuer: self.issuer@,
            client_id: self.client_id@,
            redirect_url: self.redirect_url@,
        }
    }
}

/// What came of discovering the provider's metadata.
#[derive(Debug)]
pub enum DiscoveryReply {
    /// The metadata name this authorization endpoint.
    Found(String),
    /// The issuer address is misconfigured: nothing was sent.
    Misconfigured(String),
    /// The metadata could not be fetched or read.
    Failed(String),
}

/// The mathematical value of a [`DiscoveryReply`].
pub enum DiscoveryReplyView {
    Found(Seq<char>),
    Misconfigured(Seq<char>),
    Failed(Seq<char>),
}

impl View for DiscoveryReply {
    type V = DiscoveryReplyView;

    open spec fn view(&self) -> DiscoveryReplyView {
        match self {
            DiscoveryReply::Found(endpoint) => DiscoveryReplyView::Found(endpoint@),
            DiscoveryReply::Misconfigured(cause) => DiscoveryReplyView::Misconfigured(cause@),
            DiscoveryReply::Failed(cause) => DiscoveryReplyView::Failed(cause@),
        }
    }
}

/// The request to store a nonce, with the address that embeds it.
#[derive(Debug)]
pub struct NonceSave {
    /// The nonce to store.
    pub nonce: String,
    /// The state parameter of the address, for the caller's own bookkeeping.
    pub state: String,
    /// The provider address that carries the nonce and the state.
    pub url: String,
}

/// The mathematical value of a [`NonceSave`].
pub struct NonceSaveView {
    pub nonce: Seq<char>,
    pub state: Seq<char>,
    pub url: Seq<char>,
}

impl View for NonceSave {
    type V = NonceSaveView;

    open spec fn view(&self) -> NonceSaveView {
        NonceSaveView { nonce: self.nonce@, state: self.state@, url: self.url@ }
    }
}

/// Where a call of `authorize_url` stands.
#[derive(Debug)]
pub enum Authorization {
    /// The call ends with this address to redirect the user to.
    Ready(String),
    /// The call ends with this failure.
    Failed(SsoError),
    /// The nonce must be stored.
    NeedsNonceSaved(NonceSave),
}

/// The mathematical value of an [`Authorization`].
pub enum AuthorizationView {
    Ready(Seq<char>),
    Failed(ErrorView),
    NeedsNonceSaved(NonceSaveView),
}

impl View for Authorization {
    type V = AuthorizationView;

    open spec fn view(&self) -> AuthorizationView {
        match self {
            Authorization::Ready(url) => AuthorizationView::Ready(url@),
            Authorization::Failed(error) => AuthorizationView::Failed(error@),
            Authorization::NeedsNonceSaved(request) => AuthorizationView::NeedsNonceSaved(
                request@,
            ),
        }
    }
}

/// The scopes asked for besides `openid`, in order.
pub open spec fn requested_scopes() -> Seq<Seq<char>> {
    seq!["email"@, "profile"@]
}

/// The views of a list of texts.
pub open spec fn texts_view(texts: Seq<String>) -> Seq<Seq<char>> {
    texts.map_values(|text: String| text@)
}

/// The text of the error with which the `url` crate refuses a text as a
/// URL; nothing where it accepts the text.
pub uninterp spec fn address_parse_error(address: Seq<char>) -> Option<Seq<char>>;

/// `Url::parse` of url: the text of its error, where the text is no URL.
#[verifier::external_body]
fn parse_error(address: &String) -> (error: Option<String>)
    ensures
        text_view(error) == address_parse_error(address@),
{
    url::Url::parse(address).err().map(|e| e.to_string())
}

/// The authorization address that openidconnect builds for the
/// authorization-code flow from the issuer, the authorization endpoint, the
/// client id, the redirect address, the scopes added to `openid`, the state
/// and the nonce, where the issuer, the endpoint and the redirect address
/// are URLs.
pub uninterp spec fn authorization_url_of(
    issuer: Seq<char>,
    endpoint: Seq<char>,
    client_id: Seq<char>,
    redirect_url: Seq<char>,
    scopes: Seq<Seq<char>>,
    state: Seq<char>,
    nonce: Seq<char>,
) -> Seq<char>;

/// `Client::new`, `set_redirect_uri`, `authorize_url`, `add_scope` and
/// `AuthorizationRequest::url` of openidconnect, after `IssuerUrl::new`,
/// `AuthUrl::new` and `RedirectUrl::new`: the address for an
/// authorization-code request with the given state and nonce. The three
/// constructors accept what `Url::parse` accepts, so under the precondition
/// an address always comes back.
#[verifier::external_body]
fn provider_authorization_url(
    issuer: String,
    endpoint: String,
    client_id: String,
    redirect_url: String,
    scopes: Vec<String>,
    state: String,
    nonce: String,
) -> (url: Option<String>)
    requires
        address_parse_error(issuer@) is None,
        address_parse_error(endpoint@) is None,
        address_parse_error(redirect_url@) is None,
    ensures
        text_view(url) == Some(
            authorization_url_of(
                issuer@,
                endpoint@,
                client_id@,
                redirect_url@,
                texts_view(scopes@),
                state@,
                nonce@,
            ),
        ),
{
    let issuer = IssuerUrl::new(issuer).ok()?;
    let endpoint = AuthUrl::new(endpoint).ok()?;
    let redirect = RedirectUrl::new(redirect_url).ok()?;
    let id = ClientId::new(client_id);
    let client = openidconnect::core::CoreClient::new(id, None, issuer, endpoint, None, None, Default::default())
        .set_redirect_uri(redirect);
    let flow = AuthenticationFlow::<openidconnect::core::CoreResponseType>::AuthorizationCode;
    let request = client.authorize_url(flow, move || CsrfToken::new(state), move || Nonce::new(nonce));
    let request = scopes.into_iter().fold(request, |r, s| r.add_scope(Scope::new(s)));
    Some(request.url().0.to_string())
}

/// `CsrfToken::new_random` of oauth2: sixteen random bytes in unpadded
/// URL-safe base64.
#[verifier::external_body]
fn random_state() -> (state: String)
    ensures
        state@.len() == RANDOM_TOKEN_CHARS,
{
    CsrfToken::new_random().secret().clone()
}

/// `Nonce::new_random` of openidconnect: sixteen random bytes in unpadded
/// URL-safe base64.
#[verifier::external_body]
fn random_nonce() -> (nonce: String)
    ensures
        nonce@.len() == RANDOM_TOKEN_CHARS,
{
    Nonce::new_random().secret().clone()
}

/// The view of an address that may have failed to build.
pub open spec fn outcome_text_view(outcome: Result<String, String>) -> Result<
    Seq<char>,
    Seq<char>,
> {
    match outcome {
        Ok(text) => Ok(text@),
        Err(cause) => Err(cause@),
    }
}

/// Why the three addresses cannot be used: the parse error of the first of
/// issuer, authorization endpoint and redirect address that is no URL, or
/// nothing where all three are URLs.
pub open spec fn unusable_address(
    issuer: Seq<char>,
    endpoint: Seq<char>,
    redirect_url: Seq<char>,
) -> Option<Seq<char>> {
    if address_parse_error(issuer) is Some {
        address_parse_error(issuer)
    } else if address_parse_error(endpoint) is Some {
        address_parse_error(endpoint)
    } else {
        address_parse_error(redirect_url)
    }
}

/// The address for a request with the `email` and `profile` scopes, or why
/// it cannot be built.
pub open spec fn built_address(
    settings: SettingsView,
    endpoint: Seq<char>,
    state: Seq<char>,
    nonce: Seq<char>,
) -> Result<Seq<char>, Seq<char>> {
    match unusable_address(settings.issuer, endpoint, settings.redirect_url) {
        Some(cause) => Err(cause),
        None => Ok(
            authorization_url_of(
                settings.issuer,
                endpoint,
                settings.client_id,
                settings.redirect_url,
                requested_scopes(),
                state,
                nonce,
            ),
        ),
    }
}

/// The state once the address is built, or could not be: the request to
/// store the nonce that the address was built around, or a configuration
/// failure.
pub open spec fn after_address(
    built: Result<Seq<char>, Seq<char>>,
    state: Seq<char>,
    nonce: Seq<char>,
) -> AuthorizationView {
    match built {
        Ok(url) => AuthorizationView::NeedsNonceSaved(NonceSaveView { nonce, state, url }),
        Err(cause) => AuthorizationView::Failed(ErrorView::Configuration(cause)),
    }
}

/// The state after discovery, for a given state parameter and nonce: the
/// request to store the nonce, with the address that openidconnect builds
/// around it; or the failure of discovery or of building the address.
pub open spec fn after_discovery(
    settings: SettingsView,
    discovery: DiscoveryReplyView,
    state: Seq<char>,
    nonce: Seq<char>,
) -> AuthorizationView {
    match discovery {
        DiscoveryReplyView::Misconfigured(cause) => AuthorizationView::Failed(
            ErrorView::Configuration(cause),
        ),
        DiscoveryReplyView::Failed(cause) => AuthorizationView::Failed(
            ErrorView::Discovery(cause),
        ),
        DiscoveryReplyView::Found(endpoint) => after_address(
            built_address(settings, endpoint, state, nonce),
            state,
            nonce,
        ),
    }
}

/// The state after the nonce store acknowledged the nonce, or failed to.
pub open spec fn after_nonce_save(
    request: NonceSaveView,
    outcome: Result<(), Seq<char>>,
) -> AuthorizationView {
    match outcome {
        Ok(()) => AuthorizationView::Ready(request.url),
        Err(cause) => AuthorizationView::Failed(ErrorView::NoncePersistence(cause)),
    }
}

/// Builds the address for a request with the `email` and `profile` scopes.
/// The issuer, the endpoint and the redirect address are tried in this
/// order, and the first that is no URL is the cause of the failure.
fn build_address(settings: &ClientSettings, endpoint: String, state: &String, nonce: &String) -> (built:
    Result<String, String>)
    ensures
        outcome_text_view(built) == built_address(settings@, endpoint@, state@, nonce@),
{
    if let Some(cause) = parse_error(&settings.issuer) {
        return Err(cause);
    }
    if let Some(cause) = parse_error(&endpoint) {
        return Err(cause);
    }
    if let Some(cause) = parse_error(&settings.redirect_url) {
        return Err(cause);
    }
    let mut scopes: Vec<String> = Vec::new();
    scopes.push(String::from_str("email"));
    scopes.push(String::from_str("profile"));
    assert(texts_view(scopes@) =~= requested_scopes());
    let url = provider_authorization_url(
        settings.issuer.clone(),
        endpoint,
        settings.client_id.clone(),
        settings.redirect_url.clone(),
        scopes,
        state.clone(),
        nonce.clone(),
    );
    Ok(url.unwrap())
}

/// Decides on the address that was built, or could not be: an address asks
/// for its nonce to be stored; a failure to build one ends the call.
pub fn after_address_built(built: Result<String, String>, state: String, nonce: String) -> (step:
    Authorization)
    ensures
        step@ == after_address(outcome_text_view(built), state@, nonce@),
{
    match built {
        Ok(url) => Authorization::NeedsNonceSaved(NonceSave { nonce, state, url }),
        Err(cause) => Authorization::Failed(SsoError::Configuration(cause)),
    }
}

/// Prepares an authorization request around a given state parameter and
/// nonce, for the `email` and `profile` scopes.
pub fn authorize_url_with(
    settings: &ClientSettings,
    discovery: DiscoveryReply,
    state: String,
    nonce: String,
) -> (step: Authorization)
    ensures
        step@ == after_discovery(settings@, discovery@, state@, nonce@),
{
    let endpoint = match discovery {
        DiscoveryReply::Found(endpoint) => endpoint,
        DiscoveryReply::Misconfigured(cause) => {
            return Authorization::Failed(SsoError::Configuration(cause));
        },
        DiscoveryReply::Failed(cause) => {
            return Authorization::Failed(SsoError::Discovery(cause));
        },
    };
    let built = build_address(settings, endpoint, &state, &nonce);
    after_address_built(built, state, nonce)
}

/// Prepares an authorization request around a fresh random state parameter
/// and a fresh random nonce.
pub fn authorize_url(settings: &ClientSettings, discovery: DiscoveryReply) -> (step: Authorization)
    ensures
        exists|state: Seq<char>, nonce: Seq<char>|
            state.len() == RANDOM_TOKEN_CHARS && nonce.len() == RANDOM_TOKEN_CHARS && step@
                == #[trigger] after_discovery(settings@, discovery@, state, nonce),
{
    let state = random_state();
    let nonce = random_nonce();
    authorize_url_with(settings, discovery, state, nonce)
}

impl NonceSave {
    /// Takes the nonce store's acknowledgement and ends the call: with the
    /// address where the nonce is on record, with a failure where it is not.
    pub fn answered(self, outcome: Result<(), String>) -> (step: Authorization)
        ensures
            step@ == after_nonce_save(self@, outcome_view(outcome)),
    {
        match outcome {
            Ok(()) => Authorization::Ready(self.url),
            Err(cause) => Authorization::Failed(SsoError::NoncePersistence(cause)),
        }
    }
}

} // verus!
