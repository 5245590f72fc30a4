//! Identity tokens and the authorization of requests that carry them.
//!
//! A token binds one claim, the username, under an HMAC-SHA256 signature
//! keyed by a shared secret. Tokens carry no expiry. Every way in which a
//! token can fail to verify gives the same denial, so that a caller learns
//! nothing about the stage that rejected it.

use crate::text::same_text;
use hmac::{Hmac, Mac};
use jwt::{SignWithKey, VerifyWithKey};
use sha2::Sha256;
use std::collections::BTreeMap;
use vstd::pervasive::unreached;
use vstd::prelude::*;

verus! {

/// Name of the claim that holds the username.
pub const USERNAME_CLAIM: &'static str = "username";

/// The verdict on a request: whether it is let through, and as whom.
#[derive(Clone, Debug)]
pub struct Authorization {
    pub success: bool,
    pub username: String,
}

pub struct AuthorizationView {
    pub success: bool,
    pub username: Seq<char>,
}

impl View for Authorization {
    type V = AuthorizationView;

    open spec fn view(&self) -> AuthorizationView {
        AuthorizationView { success: self.success, username: self.username@ }
    }
}

/// What a request holds under its authorization header.
#[derive(Clone, Debug)]
pub enum HeaderValue {
    /// The header is absent.
    Missing,
    /// The header is present once, with this value.
    Single(String),
    /// The header could not be read as one value.
    Ambiguous,
}

pub enum HeaderValueView {
    Missing,
    Single(Seq<char>),
    Ambiguous,
}

impl View for HeaderValue {
    type V = HeaderValueView;

    open spec fn view(&self) -> HeaderValueView {
        match self {
            HeaderValue::Missing => HeaderValueView::Missing,
            HeaderValue::Single(value) => HeaderValueView::Single(value@),
            HeaderValue::Ambiguous => HeaderValueView::Ambiguous,
        }
    }
}

/// The part of an inbound request that authorization reads.
#[derive(Clone, Debug)]
pub struct Request {
    pub authorization: HeaderValue,
}

pub struct RequestView {
    pub authorization: HeaderValueView,
}

impl View for Request {
    type V = RequestView;

    open spec fn view(&self) -> RequestView {
        RequestView { authorization: self.authorization@ }
    }
}

/// The verdict that lets nobody through.
pub open spec fn denied() -> AuthorizationView {
    AuthorizationView { success: false, username: Seq::empty() }
}

/// The verdict that lets `username` through.
pub open spec fn granted(username: Seq<char>) -> AuthorizationView {
    AuthorizationView { success: true, username }
}

/// The claims of a token, as pairs of name and value.
pub open spec fn claims_view(claims: Seq<(String, String)>) -> Seq<(Seq<char>, Seq<char>)> {
    Seq::new(claims.len(), |i: int| (claims[i].0@, claims[i].1@))
}

/// View of what a verification hands back: the claims, or nothing.
pub open spec fn outcome_view(outcome: Option<Vec<(String, String)>>) -> Option<
    Seq<(Seq<char>, Seq<char>)>,
> {
    match outcome {
        Some(claims) => Some(claims_view(claims@)),
        None => None,
    }
}

/// The value of the first claim called `name`, if there is one.
pub open spec fn claim_value(claims: Seq<(Seq<char>, Seq<char>)>, name: Seq<char>) -> Option<
    Seq<char>,
>
    decreases claims.len(),
{
    if claims.len() == 0 {
        None
    } else if claims.first().0 == name {
        Some(claims.first().1)
    } else {
        claim_value(claims.drop_first(), name)
    }
}

/// The verdict that follows from a verification's outcome: a token that did
/// not verify, or that verified without a username claim, lets nobody
/// through.
pub open spec fn claims_verdict(outcome: Option<Seq<(Seq<char>, Seq<char>)>>) -> AuthorizationView {
    match outcome {
        Some(claims) => match claim_value(claims, USERNAME_CLAIM@) {
            Some(username) => granted(username),
            None => denied(),
        },
        None => denied(),
    }
}

/// The verdict on a token under a secret.
pub open spec fn token_verdict(token: Seq<char>, secret: Seq<char>) -> AuthorizationView {
    claims_verdict(verified_claims(token, secret))
}

/// The verdict on a request under a secret: only a header that is present
/// once is looked at.
pub open spec fn request_verdict(request: RequestView, secret: Seq<char>) -> AuthorizationView {
    match request.authorization {
        HeaderValueView::Single(token) => token_verdict(token, secret),
        _ => denied(),
    }
}

/// The compact token that `jwt` makes of the one claim `name: value` with an
/// HMAC-SHA256 key made of `secret`: the default header for that key, the
/// claim as a JSON object, and the signature over both, each in unpadded
/// URL-safe base64 and joined by dots.
pub uninterp spec fn signed_claim(name: Seq<char>, value: Seq<char>, secret: Seq<char>) -> Seq<char>;

/// What `jwt` reads out of `token` under an HMAC-SHA256 key made of `secret`:
/// the claims in the order of their names, or nothing where the token does
/// not have three parts, a part does not decode, the header names another
/// algorithm, a claim is not a string, or the signature differs.
pub uninterp spec fn verified_claims(token: Seq<char>, secret: Seq<char>) -> Option<
    Seq<(Seq<char>, Seq<char>)>,
>;

/// Calls `Hmac::<Sha256>::new_from_slice` on the bytes of `secret` and
/// `SignWithKey::sign_with_key` on a map that holds `name: value`.
///
/// Assumed: signing succeeds, since an HMAC key may have any length, the
/// header takes its algorithm from the key, and a map from strings to strings
/// always serialises; the token is a function of the three texts; and the
/// token reads back, under the same secret, as exactly that claim, since
/// verification splits at the dots that signing put in, decodes what signing
/// encoded and computes the same code over the same bytes.
#[verifier::external_body]
fn sign_claim(name: &str, value: &str, secret: &str) -> (res: Option<String>)
    ensures
        res is Some,
        res matches Some(token) ==> token@ == signed_claim(name@, value@, secret@),
        res matches Some(token) ==> verified_claims(token@, secret@) == Some(
            seq![(name@, value@)],
        ),
{
    let key: Hmac<Sha256> = Hmac::new_from_slice(secret.as_bytes()).ok()?;
    let mut claims = BTreeMap::new();
    claims.insert(name, value);
    claims.sign_with_key(&key).ok()
}

/// Calls `Hmac::<Sha256>::new_from_slice` on the bytes of `secret` and
/// `VerifyWithKey::verify_with_key` on `token`, asking for the claims as a
/// map from strings to strings, and hands the map's entries out in its own
/// order.
///
/// Assumed: the outcome is a function of the two texts. Whether a token
/// verifies is not stated.
#[verifier::external_body]
fn verify_claims(token: &str, secret: &str) -> (res: Option<Vec<(String, String)>>)
    ensures
        outcome_view(res) == verified_claims(token@, secret@),
{
    let key: Hmac<Sha256> = Hmac::new_from_slice(secret.as_bytes()).ok()?;
    let claims: BTreeMap<String, String> = token.verify_with_key(&key).ok()?;
    Some(claims.into_iter().collect())
}

/// Issues the token that binds `username` under `secret`.
///
/// The token is the signed form of the single claim `username`, and it
/// verifies under the same secret as that user.
pub fn create_user(username: &str, secret: String) -> (token: String)
    ensures
        token@ == signed_claim(USERNAME_CLAIM@, username@, secret@),
        token_verdict(token@, secret@) == granted(username@),
{
    match sign_claim(USERNAME_CLAIM, username, secret.as_str()) {
        Some(token) => {
            assert(claim_value(seq![(USERNAME_CLAIM@, username@)], USERNAME_CLAIM@) == Some(
                username@,
            ));
            token
        },
        None => unreached(),
    }
}

/// Looks for the first claim called `name`.
fn find_claim(claims: &Vec<(String, String)>, name: &str) -> (res: Option<String>)
    ensures
        match res {
            Some(value) => claim_value(claims_view(claims@), name@) == Some(value@),
            None => claim_value(claims_view(claims@), name@) is None,
        },
{
    let ghost all = claims_view(claims@);
    assert(all.skip(0) =~= all);
    let mut i: usize = 0;
    while i < claims.len()
        invariant
            i <= claims.len(),
            all == claims_view(claims@),
            claim_value(all, name@) == claim_value(all.skip(i as int), name@),
        decreases claims.len() - i,
    {
        let ghost rest = all.skip(i as int);
        assert(rest.first() == all[i as int]);
        assert(rest.drop_first() =~= all.skip(i + 1));
        if same_text(claims[i].0.as_str(), name) {
            return Some(claims[i].1.clone());
        }
        i += 1;
    }
    None
}

/// Turns the outcome of a verification into a verdict.
///
/// The request is let through exactly when the token verified and holds a
/// username claim, and then as that user. Every other outcome gives the same
/// denial with an empty username.
pub fn authorization_from_claims(outcome: Option<Vec<(String, String)>>) -> (res: Authorization)
    ensures
        res@ == claims_verdict(outcome_view(outcome)),
{
    match outcome {
        Some(claims) => match find_claim(&claims, USERNAME_CLAIM) {
            Some(username) => Authorization { success: true, username },
            None => Authorization { success: false, username: String::new() },
        },
        None => Authorization { success: false, username: String::new() },
    }
}

/// Verifies `token` under `secret`.
///
/// Never fails: a token that is malformed, signed otherwise or without a
/// username is answered with the denial.
pub fn verify(token: &str, secret: &str) -> (res: Authorization)
    ensures
        res@ == token_verdict(token@, secret@),
{
    authorization_from_claims(verify_claims(token, secret))
}

/// Decides whether a request is let through.
///
/// A request whose authorization header is absent or ambiguous is denied
/// without a look at any token; a header present once is verified as a token.
pub fn authorize(req: &Request, secret: String) -> (res: Authorization)
    ensures
        res@ == request_verdict(req@, secret@),
{
    match &req.authorization {
        HeaderValue::Single(token) => verify(token.as_str(), secret.as_str()),
        _ => Authorization { success: false, username: String::new() },
    }
}

} // verus!
