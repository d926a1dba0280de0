//! What holds of the flow as a whole, proved from the transitions that the
//! functions of this crate are specified by.

use crate::authorize::{
    after_discovery, after_nonce_save, authorization_url_of, requested_scopes, unusable_address,
    AuthorizationView, DiscoveryReplyView, SettingsView,
};
use crate::claims::ClaimsView;
use crate::error::ErrorView;
use crate::exchange::{
    after_lookup, after_tokens, after_user_info, begins_exchange, kept_refresh_token,
    ExchangeView, TokenReplyView, UserInfoReplyView, UserInfoRequestView,
};
use crate::identity::{may_find, IdentityView};
use crate::redeem::{
    after_nonce_deletion, after_nonce_lookup, after_redeem_lookup, begins_redemption,
    RedemptionView,
};
use vstd::prelude::*;

verus! {

/// An authorization address is handed out only with its nonce on record:
/// where the call ends with an address, the nonce store has acknowledged the
/// nonce of the request, the request was prepared after a successful
/// discovery, and the address is the one built around exactly that nonce.
pub proof fn address_is_released_with_its_nonce_on_record(
    settings: SettingsView,
    discovery: DiscoveryReplyView,
    state: Seq<char>,
    nonce: Seq<char>,
    saved: Result<(), Seq<char>>,
    url: Seq<char>,
)
    requires
        after_discovery(settings, discovery, state, nonce) matches AuthorizationView::NeedsNonceSaved(
            request,
        ) && after_nonce_save(request, saved) == AuthorizationView::Ready(url),
    ensures
        saved is Ok,
        after_discovery(settings, discovery, state, nonce) matches AuthorizationView::NeedsNonceSaved(
            request,
        ) && request.nonce == nonce && request.url == url,
        discovery matches DiscoveryReplyView::Found(endpoint) && unusable_address(
            settings.issuer,
            endpoint,
            settings.redirect_url,
        ) is None && authorization_url_of(
            settings.issuer,
            endpoint,
            settings.client_id,
            settings.redirect_url,
            requested_scopes(),
            state,
            nonce,
        ) == url,
{
}

/// A nonce that could not be stored yields no address.
pub proof fn unsaved_nonce_yields_no_address(
    settings: SettingsView,
    discovery: DiscoveryReplyView,
    state: Seq<char>,
    nonce: Seq<char>,
    cause: Seq<char>,
)
    requires
        after_discovery(settings, discovery, state, nonce) is NeedsNonceSaved,
    ensures
        after_nonce_save(
            after_discovery(settings, discovery, state, nonce)->NeedsNonceSaved_0,
            Err(cause),
        ) == AuthorizationView::Failed(ErrorView::NoncePersistence(cause)),
{
}

/// Asking twice gives the same email and one provider exchange. Once the
/// token endpoint's reply has resolved a code, a later `exchange_code` for
/// that code decides on what the cache holds for it. With the entry found,
/// the call ends at once with the email of the first call, and no request is
/// made. Only with nothing found does it ask the provider again. Whether the
/// entry is found is the cache's to say, by age and capacity.
pub proof fn repeated_exchange_is_answered_from_cache(
    cached: Map<Seq<char>, IdentityView>,
    code: Seq<char>,
    reply: TokenReplyView,
    claims: Option<ClaimsView>,
    email: Seq<char>,
    found: Option<IdentityView>,
)
    requires
        after_tokens(cached, code, reply, claims).1 == ExchangeView::Resolved(email),
        may_find(after_tokens(cached, code, reply, claims).0, code, found),
    ensures
        found is Some ==> after_lookup(code, found) == ExchangeView::Resolved(email),
        found is None ==> after_lookup(code, found) == ExchangeView::NeedsTokens(code),
        begins_exchange(
            after_tokens(cached, code, reply, claims).0,
            code,
            after_lookup(code, found),
        ),
{
}

/// The same, where the first call learnt the email from the userinfo
/// endpoint.
pub proof fn repeated_exchange_is_answered_from_cache_after_user_info(
    cached: Map<Seq<char>, IdentityView>,
    request: UserInfoRequestView,
    reply: UserInfoReplyView,
    email: Seq<char>,
    found: Option<IdentityView>,
)
    requires
        after_user_info(cached, request, reply).1 == ExchangeView::Resolved(email),
        may_find(after_user_info(cached, request, reply).0, request.code, found),
    ensures
        found is Some ==> after_lookup(request.code, found) == ExchangeView::Resolved(email),
        found is None ==> after_lookup(request.code, found) == ExchangeView::NeedsTokens(
            request.code,
        ),
        begins_exchange(
            after_user_info(cached, request, reply).0,
            request.code,
            after_lookup(request.code, found),
        ),
{
}

/// A code that the cache does not answer for goes back to the provider:
/// whether it was never exchanged, was redeemed, or its entry was dropped,
/// `exchange_code` asks for a fresh exchange of that very code.
pub proof fn unanswered_code_goes_back_to_the_provider(
    cached: Map<Seq<char>, IdentityView>,
    code: Seq<char>,
    step: ExchangeView,
)
    requires
        begins_exchange(cached, code, step),
    ensures
        !(step is Resolved) ==> step == ExchangeView::NeedsTokens(code),
        !cached.contains_key(code) ==> step == ExchangeView::NeedsTokens(code),
{
}

/// A fresh exchange replaces what the cache held: a reply of the token
/// endpoint whose identity token names an email resolves to that email and
/// writes the token's nonce under the code, whatever was written for the
/// code before.
pub proof fn fresh_exchange_replaces_the_entry(
    cached: Map<Seq<char>, IdentityView>,
    code: Seq<char>,
    reply: TokenReplyView,
    claims: ClaimsView,
    email: Seq<char>,
)
    requires
        reply matches TokenReplyView::Tokens(tokens) && tokens.id_token is Some,
        claims.email == Some(email),
    ensures
        after_tokens(cached, code, reply, Some(claims)).1 == ExchangeView::Resolved(email),
        after_tokens(cached, code, reply, Some(claims)).0.contains_key(code),
        after_tokens(cached, code, reply, Some(claims)).0[code].email == email,
        after_tokens(cached, code, reply, Some(claims)).0[code].nonce == claims.nonce,
        after_tokens(cached, code, reply, Some(claims)).0.remove(code) == cached.remove(code),
{
    let written = after_tokens(cached, code, reply, Some(claims)).0;
    assert(written.remove(code) =~= cached.remove(code));
}

/// A failed exchange leaves no trace: where the token endpoint's reply does
/// not resolve the code, the cache is as it was.
pub proof fn failed_exchange_leaves_cache_unchanged(
    cached: Map<Seq<char>, IdentityView>,
    code: Seq<char>,
    reply: TokenReplyView,
    claims: Option<ClaimsView>,
)
    requires
        !(after_tokens(cached, code, reply, claims).1 is Resolved),
    ensures
        after_tokens(cached, code, reply, claims).0 == cached,
{
}

/// Redeeming a code that was never exchanged, or was redeemed already, is a
/// cache miss: the cache stays as it was and the nonce store is not asked
/// for anything, least of all a deletion.
pub proof fn redeem_without_exchange_misses(
    cached: Map<Seq<char>, IdentityView>,
    code: Seq<char>,
    remaining: Map<Seq<char>, IdentityView>,
    step: RedemptionView,
)
    requires
        !cached.contains_key(code),
        begins_redemption(cached, code, remaining, step),
    ensures
        step == RedemptionView::Failed(ErrorView::CacheMiss),
        remaining == cached,
{
}

/// A deletion is asked for only after the nonce store has said that it
/// holds the nonce.
pub proof fn deletion_follows_a_found_nonce(identity: IdentityView, found: bool)
    ensures
        after_nonce_lookup(identity, found) is NeedsNonceDeletion <==> found,
        !found ==> after_nonce_lookup(identity, found) == RedemptionView::Failed(
            ErrorView::NonceNotFound,
        ),
{
}

/// Redemption succeeds once per code. A `redeem` that finds the entry of
/// the code takes the identity written for it out of the cache and asks for
/// its nonce; once that nonce is found and deleted, exactly the refresh
/// token written for the code is released. Whatever the nonce store says, a
/// `redeem` of the same code that follows finds nothing and is a cache miss
/// that leaves the cache as it is.
pub proof fn redeem_succeeds_once(
    cached: Map<Seq<char>, IdentityView>,
    code: Seq<char>,
    found: Option<IdentityView>,
    again: Option<IdentityView>,
)
    requires
        found is Some,
        may_find(cached, code, found),
        may_find(after_redeem_lookup(cached, code, found).0, code, again),
    ensures
        cached.contains_key(code),
        after_redeem_lookup(cached, code, found) == (
            cached.remove(code),
            RedemptionView::NeedsNonce(cached[code]),
        ),
        begins_redemption(
            cached,
            code,
            cached.remove(code),
            RedemptionView::NeedsNonce(cached[code]),
        ),
        after_nonce_lookup(cached[code], true) == RedemptionView::NeedsNonceDeletion(
            cached[code],
        ),
        after_nonce_deletion(cached[code], Ok(())) == RedemptionView::Released(
            cached[code].refresh_token,
        ),
        again is None,
        after_redeem_lookup(cached.remove(code), code, again) == (
            cached.remove(code),
            RedemptionView::Failed(ErrorView::CacheMiss),
        ),
{
}

/// What redemption releases is what the exchange kept: after a reply of the
/// token endpoint has resolved a code, a `redeem` that the cache answers
/// asks for the nonce that the identity token echoed, and holds the refresh
/// token that the provider issued, or the empty text where it issued none.
pub proof fn redeem_takes_what_exchange_kept(
    cached: Map<Seq<char>, IdentityView>,
    code: Seq<char>,
    reply: TokenReplyView,
    claims: Option<ClaimsView>,
    remaining: Map<Seq<char>, IdentityView>,
    identity: IdentityView,
)
    requires
        after_tokens(cached, code, reply, claims).1 is Resolved,
        begins_redemption(
            after_tokens(cached, code, reply, claims).0,
            code,
            remaining,
            RedemptionView::NeedsNonce(identity),
        ),
    ensures
        reply matches TokenReplyView::Tokens(tokens) && claims matches Some(read)
            && identity.nonce == read.nonce && identity.refresh_token == kept_refresh_token(
            tokens.refresh_token,
        ) && read.email == Some(identity.email),
        after_tokens(cached, code, reply, claims).1 == ExchangeView::Resolved(identity.email),
{
}

} // verus!
