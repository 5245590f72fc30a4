//! The rules that a slug's name and its target URL must meet.

use crate::text::same_text;
use regex::Regex;
use vstd::prelude::*;

verus! {

/// Path segment under which all slugs are listed and registered.
pub const LIST_SEGMENT: &'static str = "slugs";

/// Path segment under which users are issued tokens.
pub const USER_SEGMENT: &'static str = "user";

/// The shape of an accepted target: `http` or `https`, an optional `www.`, a
/// host with a dot before its last label, then any path, query or fragment
/// made of the usual characters.
pub const URL_PATTERN: &'static str =
    r"^https?://(www\.)?[-a-zA-Z0-9@:%._+~#=]{1,256}\.[a-zA-Z0-9()]{1,6}\b([-a-zA-Z0-9()@:%_+.~#?&//=]*)$";

/// Why a name is refused.
#[derive(Clone, Copy, Debug, PartialEq, Eq, Structural)]
pub enum NameFault {
    /// The name has no characters.
    Empty,
    /// The name is one of the service's own path segments.
    Reserved,
}

/// Why a slug is refused.
#[derive(Clone, Copy, Debug, PartialEq, Eq, Structural)]
pub enum ValidationError {
    InvalidName(NameFault),
    InvalidUrl,
}

/// A name is reserved when a route of the service already answers to it.
pub open spec fn is_reserved(name: Seq<char>) -> bool {
    name == LIST_SEGMENT@ || name == USER_SEGMENT@
}

/// What is wrong with a name, if anything. Emptiness is reported first.
pub open spec fn name_fault(name: Seq<char>) -> Option<NameFault> {
    if name.len() == 0 {
        Some(NameFault::Empty)
    } else if is_reserved(name) {
        Some(NameFault::Reserved)
    } else {
        None
    }
}

/// Whether `regex` finds a match of `pattern` in `text`, or nothing where
/// `pattern` is not a regular expression that it compiles.
pub uninterp spec fn pattern_match(pattern: Seq<char>, text: Seq<char>) -> Option<bool>;

/// A text has the shape of a URL when the pattern compiles and matches it.
pub open spec fn has_url_shape(url: Seq<char>) -> bool {
    pattern_match(URL_PATTERN@, url) == Some(true)
}

/// The verdict on a URL.
pub open spec fn url_fault(url: Seq<char>) -> Option<ValidationError> {
    if has_url_shape(url) {
        None
    } else {
        Some(ValidationError::InvalidUrl)
    }
}

/// Calls `Regex::new` on `pattern` and, where that compiles, `Regex::is_match`
/// on `text`.
///
/// Assumed: the outcome is a function of the two texts.
#[verifier::external_body]
fn pattern_matches(pattern: &str, text: &str) -> (res: Option<bool>)
    ensures
        res == pattern_match(pattern@, text@),
{
    match Regex::new(pattern) {
        Ok(compiled) => Some(compiled.is_match(text)),
        Err(_) => None,
    }
}

/// Whether a route of the service already answers to `name`.
pub fn reserved(name: &str) -> (res: bool)
    ensures
        res == is_reserved(name@),
{
    same_text(name, LIST_SEGMENT) || same_text(name, USER_SEGMENT)
}

/// Accepts every name that is neither empty nor reserved.
pub fn validate_name(name: &str) -> (res: Result<(), ValidationError>)
    ensures
        res == match name_fault(name@) {
            Some(fault) => Err::<(), ValidationError>(ValidationError::InvalidName(fault)),
            None => Ok(()),
        },
{
    if name.is_empty() {
        Err(ValidationError::InvalidName(NameFault::Empty))
    } else if reserved(name) {
        Err(ValidationError::InvalidName(NameFault::Reserved))
    } else {
        Ok(())
    }
}

/// Judges a URL by whether the pattern matched it: only a match is accepted,
/// and a pattern that did not compile matches nothing.
pub fn url_verdict(matched: Option<bool>) -> (res: Result<(), ValidationError>)
    ensures
        res == (if matched == Some(true) {
            Ok::<(), ValidationError>(())
        } else {
            Err(ValidationError::InvalidUrl)
        }),
{
    match matched {
        Some(true) => Ok(()),
        _ => Err(ValidationError::InvalidUrl),
    }
}

/// Accepts every text that has the shape of a URL. The target is not
/// fetched.
pub fn validate_url(url: &str) -> (res: Result<(), ValidationError>)
    ensures
        res == match url_fault(url@) {
            Some(fault) => Err::<(), ValidationError>(fault),
            None => Ok(()),
        },
{
    url_verdict(pattern_matches(URL_PATTERN, url))
}

} // verus!
