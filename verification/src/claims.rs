//! Reading the claims of an identity token.
//!
//! The token comes straight from the provider's token endpoint, over a
//! channel the provider authenticated, and was not relayed by the browser.
//! Its signature is therefore not checked: the claims are read as they stand.
//! Everything that touches the token's encoding is here, so that checked
//! reading can take its place without a change to the flow.

use jsonwebtoken::{decode, DecodingKey, Validation};
use vstd::prelude::*;

verus! {

/// The claims the flow reads from an identity token.
#[derive(Debug)]
pub struct Claims {
    /// When the token expires, in seconds since the epoch.
    pub exp: i64,
    /// The user's email, where the token names one.
    pub email: Option<String>,
    /// The nonce the token echoes.
    pub nonce: String,
}

/// The mathematical value of [`Claims`].
pub struct ClaimsView {
    pub exp: int,
    pub email: Option<Seq<char>>,
    pub nonce: Seq<char>,
}

impl View for Claims {
    type V = ClaimsView;

    open spec fn view(&self) -> ClaimsView {
        ClaimsView {
            exp: self.exp as int,
            email: match self.email {
                Some(email) => Some(email@),
                None => None,
            },
            nonce: self.nonce@,
        }
    }
}

/// One member of the token's claim set, as far as the flow tells values apart.
#[derive(Debug)]
pub enum ClaimValue {
    /// JSON `null`.
    Null,
    /// A JSON boolean.
    Bool(bool),
    /// A JSON number, with its value where it is an integer that fits `i64`.
    Number(Option<i64>),
    /// A JSON string.
    Text(String),
    /// A JSON array.
    List,
    /// A JSON object.
    Object,
}

/// The mathematical value of a [`ClaimValue`].
pub enum ClaimValueView {
    Null,
    Bool(bool),
    Number(Option<int>),
    Text(Seq<char>),
    List,
    Object,
}

impl View for ClaimValue {
    type V = ClaimValueView;

    open spec fn view(&self) -> ClaimValueView {
        match self {
            ClaimValue::Null => ClaimValueView::Null,
            ClaimValue::Bool(b) => ClaimValueView::Bool(*b),
            ClaimValue::Number(Some(n)) => ClaimValueView::Number(Some(*n as int)),
            ClaimValue::Number(None) => ClaimValueView::Number(None),
            ClaimValue::Text(s) => ClaimValueView::Text(s@),
            ClaimValue::List => ClaimValueView::List,
            ClaimValue::Object => ClaimValueView::Object,
        }
    }
}

/// The view of a member that may be absent.
pub open spec fn member_view(member: Option<ClaimValue>) -> Option<ClaimValueView> {
    match member {
        Some(value) => Some(value@),
        None => None,
    }
}

/// The view of claims that may be absent.
pub open spec fn claims_view(claims: Option<Claims>) -> Option<ClaimsView> {
    match claims {
        Some(c) => Some(c@),
        None => None,
    }
}

/// The claims that three members of a claim set stand for, if any.
///
/// `exp` must be an integer that fits `i64`, `nonce` a string. `email` may be
/// absent or `null`, which both mean that the token names no email;
/// otherwise it must be a string.
pub open spec fn claims_of_members(
    exp: Option<ClaimValueView>,
    email: Option<ClaimValueView>,
    nonce: Option<ClaimValueView>,
) -> Option<ClaimsView> {
    match (exp, nonce) {
        (Some(ClaimValueView::Number(Some(exp))), Some(ClaimValueView::Text(nonce))) => {
            match email {
                None | Some(ClaimValueView::Null) => Some(
                    ClaimsView { exp, email: None, nonce },
                ),
                Some(ClaimValueView::Text(email)) => Some(
                    ClaimsView { exp, email: Some(email), nonce },
                ),
                _ => None,
            }
        },
        _ => None,
    }
}

/// Builds the claims from the members `exp`, `email` and `nonce` of a claim
/// set, each absent or present with its value. Members of the wrong kind
/// make the claim set unreadable.
pub fn claims_from_members(
    exp: Option<ClaimValue>,
    email: Option<ClaimValue>,
    nonce: Option<ClaimValue>,
) -> (claims: Option<Claims>)
    ensures
        claims_view(claims) == claims_of_members(
            member_view(exp),
            member_view(email),
            member_view(nonce),
        ),
{
    let exp = match exp {
        Some(ClaimValue::Number(Some(seconds))) => seconds,
        _ => { return None; },
    };
    let nonce = match nonce {
        Some(ClaimValue::Text(text)) => text,
        _ => { return None; },
    };
    match email {
        None => Some(Claims { exp, email: None, nonce }),
        Some(ClaimValue::Null) => Some(Claims { exp, email: None, nonce }),
        Some(ClaimValue::Text(text)) => Some(Claims { exp, email: Some(text), nonce }),
        _ => None,
    }
}

/// `serde_json::Value`, opaque to the verifier.
#[verifier::external_type_specification]
#[verifier::external_body]
pub struct ExJsonValue(serde_json::Value);

/// `jsonwebtoken::errors::Error`, opaque to the verifier.
#[verifier::external_type_specification]
#[verifier::external_body]
pub struct ExTokenError(jsonwebtoken::errors::Error);

/// The members of a claim set by name, each as far as the flow tells values
/// apart. A value that is no JSON object has no members.
pub uninterp spec fn claim_set_members(claim_set: serde_json::Value) -> Map<Seq<char>, ClaimValueView>;

/// The members of the claim set that a token carries: of the JSON value that
/// its payload, the second of its three parts, encodes.
pub uninterp spec fn token_members(id_token: Seq<char>) -> Map<Seq<char>, ClaimValueView>;

/// The member of a name, where there is one.
pub open spec fn member_named(
    members: Map<Seq<char>, ClaimValueView>,
    name: Seq<char>,
) -> Option<ClaimValueView> {
    if members.contains_key(name) {
        Some(members[name])
    } else {
        None
    }
}

/// The claims that a token's claim set stands for, if any.
pub open spec fn claims_of_token(id_token: Seq<char>) -> Option<ClaimsView> {
    claims_of_members(
        member_named(token_members(id_token), "exp"@),
        member_named(token_members(id_token), "email"@),
        member_named(token_members(id_token), "nonce"@),
    )
}

/// `jsonwebtoken::decode` with the default validation and its signature
/// check switched off: the claim set of the token, or the crate's error.
/// The crate still refuses a token without a usable `exp`, and one whose
/// `exp` lies more than a minute before the current time, so whether a claim
/// set comes back depends on the clock. The one that comes back does not: it
/// is the token's payload, parsed.
#[verifier::external_body]
fn decode_without_signature(id_token: &str) -> (outcome: Result<serde_json::Value, jsonwebtoken::errors::Error>)
    ensures
        outcome matches Ok(claim_set) ==> claim_set_members(claim_set) == token_members(id_token@),
{
    let mut validation = Validation::default();
    validation.insecure_disable_signature_validation();
    match decode::<serde_json::Value>(id_token, &DecodingKey::from_secret(&[]), &validation) {
        Ok(data) => Ok(data.claims),
        Err(error) => Err(error),
    }
}

/// `serde_json::Value::get` with a string index, and `Number::as_i64`: the
/// member of that name, where the value is an object that has it.
#[verifier::external_body]
fn claim_member(claim_set: &serde_json::Value, name: &str) -> (member: Option<ClaimValue>)
    ensures
        member_view(member) == member_named(claim_set_members(*claim_set), name@),
{
    match claim_set.get(name) {
        None => None,
        Some(serde_json::Value::Null) => Some(ClaimValue::Null),
        Some(serde_json::Value::Bool(b)) => Some(ClaimValue::Bool(*b)),
        Some(serde_json::Value::Number(n)) => Some(ClaimValue::Number(n.as_i64())),
        Some(serde_json::Value::String(s)) => Some(ClaimValue::Text(s.clone())),
        Some(serde_json::Value::Array(_)) => Some(ClaimValue::List),
        Some(serde_json::Value::Object(_)) => Some(ClaimValue::Object),
    }
}

/// Reads the claims of an identity token without checking its signature.
///
/// The claims returned are those of the token's own claim set, as
/// [`claims_of_token`] reads them: `exp`, `nonce` and, where the token names
/// one, `email`. Nothing is returned for a claim set that does not hold
/// them, nor for a token that is malformed or has expired. Which tokens
/// count as expired depends on the clock, so a token with a readable claim
/// set is not promised to be read.
pub fn read_claims_unverified(id_token: &str) -> (claims: Option<Claims>)
    ensures
        claims is Some ==> claims_view(claims) == claims_of_token(id_token@),
        claims_of_token(id_token@) is None ==> claims is None,
{
    match decode_without_signature(id_token) {
        Err(_) => None,
        Ok(claim_set) => {
            let exp = claim_member(&claim_set, "exp");
            let email = claim_member(&claim_set, "email");
            let nonce = claim_member(&claim_set, "nonce");
            claims_from_members(exp, email, nonce)
        },
    }
}

} // verus!
