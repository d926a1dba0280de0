//! The plain values that travel through the flow.

use vstd::prelude::*;

verus! {

/// What is kept for an authorization code once the provider has exchanged it.
#[derive(Debug)]
pub struct CachedIdentity {
    /// The nonce that the identity token echoed.
    pub nonce: String,
    /// The refresh token of the provider, empty where it issued none.
    pub refresh_token: String,
    /// The email of the signed-in user.
    pub email: String,
}

/// The mathematical value of a [`CachedIdentity`].
pub struct IdentityView {
    pub nonce: Seq<char>,
    pub refresh_token: Seq<char>,
    pub email: Seq<char>,
}

impl View for CachedIdentity {
    type V = IdentityView;

    open spec fn view(&self) -> IdentityView {
        IdentityView {
            nonce: self.nonce@,
            refresh_token: self.refresh_token@,
            email: self.email@,
        }
    }
}

/// The map that holds no identity.
pub open spec fn no_identities() -> Map<Seq<char>, IdentityView> {
    Map::empty()
}

/// The view of a text that may be absent.
pub open spec fn text_view(text: Option<String>) -> Option<Seq<char>> {
    match text {
        Some(t) => Some(t@),
        None => None,
    }
}

/// The view of an identity that may be absent.
pub open spec fn identity_view(found: Option<CachedIdentity>) -> Option<IdentityView> {
    match found {
        Some(identity) => Some(identity@),
        None => None,
    }
}

/// What a lookup of `code` may find, given the identities written: nothing,
/// or the identity written for the code.
pub open spec fn may_find(
    cached: Map<Seq<char>, IdentityView>,
    code: Seq<char>,
    found: Option<IdentityView>,
) -> bool {
    found matches Some(identity) ==> cached.contains_key(code) && cached[code] == identity
}

impl Clone for CachedIdentity {
    fn clone(&self) -> (r: Self)
        ensures
            r@ == self@,
    {
        CachedIdentity {
            nonce: self.nonce.clone(),
            refresh_token: self.refresh_token.clone(),
            email: self.email.clone(),
        }
    }
}

} // verus!
