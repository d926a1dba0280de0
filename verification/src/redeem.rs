//! Finishing a sign-in: releasing the refresh token of an exchanged code.
//!
//! Redemption takes the identity out of the cache, which makes it single-use
//! whatever follows, and releases the refresh token once the identity's nonce
//! has been found in the nonce store and deleted from it. The caller owns the
//! nonce store and performs the two requests.

use crate::cache::ExchangeCache;
use crate::error::{outcome_view, ErrorView, SsoError};
use crate::identity::{identity_view, may_find, CachedIdentity, IdentityView};
use vstd::prelude::*;

verus! {

/// The request to look the identity's nonce up in the nonce store.
#[derive(Debug)]
pub struct NonceLookup {
    pub identity: CachedIdentity,
}

/// The request to delete the record of the identity's nonce.
#[derive(Debug)]
pub struct NonceDeletion {
    pub identity: CachedIdentity,
}

/// Where a call of `redeem` stands.
#[derive(Debug)]
pub enum Redemption {
    /// The call ends with this refresh token, which may be empty.
    Released(String),
    /// The call ends with this failure.
    Failed(SsoError),
    /// The nonce must be looked up.
    NeedsNonce(NonceLookup),
    /// The nonce's record must be deleted.
    NeedsNonceDeletion(NonceDeletion),
}

/// The mathematical value of a [`Redemption`].
pub enum RedemptionView {
    Released(Seq<char>),
    Failed(ErrorView),
    NeedsNonce(IdentityView),
    NeedsNonceDeletion(IdentityView),
}

impl View for Redemption {
    type V = RedemptionView;

    open spec fn view(&self) -> RedemptionView {
        match self {
            Redemption::Released(token) => RedemptionView::Released(token@),
            Redemption::Failed(error) => RedemptionView::Failed(error@),
            Redemption::NeedsNonce(request) => RedemptionView::NeedsNonce(request.identity@),
            Redemption::NeedsNonceDeletion(request) => RedemptionView::NeedsNonceDeletion(
                request.identity@,
            ),
        }
    }
}

/// What `redeem` may do for a code, given the identities written to the
/// cache before (`cached`): miss, and leave the cache as it is; or take the
/// identity written for the code out of the cache and ask for its nonce. A
/// code with no identity written always misses. One with an identity may,
/// since the cache drops entries by age and under capacity pressure.
pub open spec fn begins_redemption(
    cached: Map<Seq<char>, IdentityView>,
    code: Seq<char>,
    remaining: Map<Seq<char>, IdentityView>,
    step: RedemptionView,
) -> bool {
    ||| step == RedemptionView::Failed(ErrorView::CacheMiss) && remaining == cached
    ||| cached.contains_key(code) && step == RedemptionView::NeedsNonce(cached[code])
            && remaining == cached.remove(code)
}

/// The cache and the state after the cache was looked up for a code, given
/// the identities written before: with nothing found the call ends and the
/// cache stays as it was; the identity found leaves the cache and its nonce
/// is asked for.
pub open spec fn after_redeem_lookup(
    cached: Map<Seq<char>, IdentityView>,
    code: Seq<char>,
    found: Option<IdentityView>,
) -> (Map<Seq<char>, IdentityView>, RedemptionView) {
    match found {
        None => (cached, RedemptionView::Failed(ErrorView::CacheMiss)),
        Some(identity) => (cached.remove(code), RedemptionView::NeedsNonce(identity)),
    }
}

/// The state after the nonce store said whether it holds the nonce.
pub open spec fn after_nonce_lookup(identity: IdentityView, found: bool) -> RedemptionView {
    if found {
        RedemptionView::NeedsNonceDeletion(identity)
    } else {
        RedemptionView::Failed(ErrorView::NonceNotFound)
    }
}

/// The state after the nonce store acknowledged the deletion, or failed to.
pub open spec fn after_nonce_deletion(
    identity: IdentityView,
    outcome: Result<(), Seq<char>>,
) -> RedemptionView {
    match outcome {
        Ok(()) => RedemptionView::Released(identity.refresh_token),
        Err(cause) => RedemptionView::Failed(ErrorView::NonceDeletion(cause)),
    }
}

/// Decides on what the cache held for a code. With nothing found the call
/// ends as a cache miss. An identity found is invalidated in the cache at
/// once, before the nonce store is consulted, so that it is redeemed once
/// whatever follows.
pub fn redeem_found(cache: &mut ExchangeCache, code: &String, found: Option<CachedIdentity>) -> (step:
    Redemption)
    ensures
        (final(cache)@, step@) == after_redeem_lookup(old(cache)@, code@, identity_view(found)),
        final(cache).max_entries() == old(cache).max_entries(),
        final(cache).lifetime_secs() == old(cache).lifetime_secs(),
{
    match found {
        None => Redemption::Failed(SsoError::CacheMiss),
        Some(identity) => {
            cache.invalidate(code);
            Redemption::NeedsNonce(NonceLookup { identity })
        },
    }
}

/// Starts the redemption of a code: looks it up and decides on what was
/// found, as [`redeem_found`] does.
pub fn redeem(cache: &mut ExchangeCache, code: &String) -> (step: Redemption)
    ensures
        begins_redemption(old(cache)@, code@, final(cache)@, step@),
        exists|found: Option<IdentityView>|
            may_find(old(cache)@, code@, found) && (final(cache)@, step@)
                == #[trigger] after_redeem_lookup(old(cache)@, code@, found),
        final(cache).max_entries() == old(cache).max_entries(),
        final(cache).lifetime_secs() == old(cache).lifetime_secs(),
{
    let found = cache.lookup(code);
    assert(may_find(cache@, code@, identity_view(found)));
    redeem_found(cache, code, found)
}

impl NonceLookup {
    /// Takes the nonce store's answer: a nonce that is not there ends the
    /// call; one that is there must be deleted next.
    pub fn answered(self, found: bool) -> (step: Redemption)
        ensures
            step@ == after_nonce_lookup(self.identity@, found),
    {
        if found {
            Redemption::NeedsNonceDeletion(NonceDeletion { identity: self.identity })
        } else {
            Redemption::Failed(SsoError::NonceNotFound)
        }
    }
}

impl NonceDeletion {
    /// Takes the nonce store's acknowledgement and ends the call: with the
    /// refresh token where the nonce was deleted, with a failure where not.
    pub fn answered(self, outcome: Result<(), String>) -> (step: Redemption)
        ensures
            step@ == after_nonce_deletion(self.identity@, outcome_view(outcome)),
    {
        match outcome {
            Ok(()) => Redemption::Released(self.identity.refresh_token),
            Err(cause) => Redemption::Failed(SsoError::NonceDeletion(cause)),
        }
    }
}

} // verus!
