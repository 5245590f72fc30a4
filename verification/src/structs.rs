//! The records that travel between clients, the service and the store.
//!
//! Each type has a view over `Seq<char>`, and all contracts of the crate
//! speak of these views.

use vstd::prelude::*;

verus! {

/// View of a value that may be absent.
pub open spec fn option_view<T: View>(value: Option<T>) -> Option<T::V> {
    match value {
        Some(inner) => Some(inner@),
        None => None,
    }
}

/// Body of a request that registers a slug.
#[derive(Clone, Debug)]
pub struct SlugPayload {
    pub name: String,
    pub url: String,
}

pub struct SlugPayloadView {
    pub name: Seq<char>,
    pub url: Seq<char>,
}

impl View for SlugPayload {
    type V = SlugPayloadView;

    open spec fn view(&self) -> SlugPayloadView {
        SlugPayloadView { name: self.name@, url: self.url@ }
    }
}

/// What the store keeps under a slug's name.
#[derive(Clone, Debug)]
pub struct SlugValue {
    pub url: String,
    pub creator: String,
    pub created_at: String,
}

pub struct SlugValueView {
    pub url: Seq<char>,
    pub creator: Seq<char>,
    pub created_at: Seq<char>,
}

impl View for SlugValue {
    type V = SlugValueView;

    open spec fn view(&self) -> SlugValueView {
        SlugValueView { url: self.url@, creator: self.creator@, created_at: self.created_at@ }
    }
}

impl SlugValue {
    /// A copy with the same three texts. (`clone` is derived for callers
    /// outside the verifier, which knows nothing of what it returns.)
    pub fn duplicate(&self) -> (copy: SlugValue)
        ensures
            copy@ == self@,
    {
        SlugValue {
            url: self.url.clone(),
            creator: self.creator.clone(),
            created_at: self.created_at.clone(),
        }
    }
}

/// Body of a request that asks for a user's token.
#[derive(Clone, Debug)]
pub struct UserPayload {
    pub username: String,
}

pub struct UserPayloadView {
    pub username: Seq<char>,
}

impl View for UserPayload {
    type V = UserPayloadView;

    open spec fn view(&self) -> UserPayloadView {
        UserPayloadView { username: self.username@ }
    }
}

/// Answer to a request that asked for a user's token.
#[derive(Clone, Debug)]
pub struct UserValueResponse {
    pub username: String,
    pub token: String,
}

pub struct UserValueResponseView {
    pub username: Seq<char>,
    pub token: Seq<char>,
}

impl View for UserValueResponse {
    type V = UserValueResponseView;

    open spec fn view(&self) -> UserValueResponseView {
        UserValueResponseView { username: self.username@, token: self.token@ }
    }
}

} // verus!
