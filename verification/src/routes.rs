//! What the service answers on each of its routes.
//!
//! A route takes the parts of a request as plain values and decides at once,
//! or names a command for the store. Checks are made in a fixed order: the
//! body, then the credentials, then the slug itself, so that a request with
//! several faults is always answered with the same one.

use crate::auth::{
    authorize, create_user, granted, request_verdict, signed_claim, token_verdict, HeaderValue,
    HeaderValueView, Request, RequestView, USERNAME_CLAIM,
};
use crate::listing::SlugListing;
use crate::store::{
    create, creation, delete, deletion, enumeration, get, list_all, reading, result_view, resume,
    slug_fault, step, Operation, OperationView, Outcome, OutcomeView, Progress, ProgressView,
    StoreAnswer, StoreCommand, StoreCommandView, StoreError,
};
use crate::structs::{
    option_view, SlugPayload, SlugPayloadView, SlugValueView, UserPayload, UserPayloadView,
    UserValueResponse, UserValueResponseView,
};
use crate::text::same_text;
use crate::validate::{NameFault, ValidationError};
use vstd::prelude::*;

verus! {

/// What the service says on its home route.
pub const HOME_TEXT: &'static str = "https://github.com/y3ll0wlife";

/// The kinds of failure that a client can be told of.
#[derive(Clone, Copy, Debug, PartialEq, Eq, Structural)]
pub enum ErrorKind {
    BadRequest,
    Unauthorized,
    NotFound,
    StoreUnavailable,
}

/// Why a request was not served.
#[derive(Clone, Copy, Debug, PartialEq, Eq, Structural)]
pub enum Failure {
    /// The body is not the JSON object that the route takes.
    MalformedBody,
    /// The route needs the admin key, and the request names none.
    MissingAuthorization,
    /// The credentials are absent, invalid or not the expected ones.
    Unauthorized,
    /// The slug's name is empty.
    EmptyName,
    /// The slug's name is one of the service's own path segments.
    ReservedName,
    /// The slug's target does not have the shape of a URL.
    InvalidUrl,
    /// The path names no slug.
    MissingParameter,
    /// No record can be read under the slug's name.
    NotFound,
    /// The store could not be reached.
    StoreUnavailable,
}

impl Failure {
    /// The kind of a failure.
    pub open spec fn spec_kind(self) -> ErrorKind {
        match self {
            Failure::Unauthorized => ErrorKind::Unauthorized,
            Failure::NotFound => ErrorKind::NotFound,
            Failure::StoreUnavailable => ErrorKind::StoreUnavailable,
            _ => ErrorKind::BadRequest,
        }
    }

    /// The status code of a failure.
    pub open spec fn spec_status(self) -> u16 {
        match self.spec_kind() {
            ErrorKind::BadRequest => 400,
            ErrorKind::Unauthorized => 401,
            ErrorKind::NotFound => 404,
            ErrorKind::StoreUnavailable => 500,
        }
    }

    /// The message of a failure.
    pub open spec fn spec_message(self) -> Seq<char> {
        match self {
            Failure::MalformedBody => "bad request request has to be of 'Content-Type' 'application/json'"@,
            Failure::MissingAuthorization => "bad request missing authorization header"@,
            Failure::Unauthorized => "unauthorized"@,
            Failure::EmptyName => "bad request value of 'name' length has to be greater then or equal to 1"@,
            Failure::ReservedName => "bad request value of 'name' is a blacklisted term"@,
            Failure::InvalidUrl => "bad request invalid url"@,
            Failure::MissingParameter => "bad request"@,
            Failure::NotFound => "404 does not exist"@,
            Failure::StoreUnavailable => "store unavailable"@,
        }
    }

    /// The kind of this failure: everything that the client got wrong and
    /// that is neither a matter of credentials nor of a missing slug is a bad
    /// request.
    #[verifier::when_used_as_spec(spec_kind)]
    pub fn kind(self) -> (res: ErrorKind)
        ensures
            res == self.spec_kind(),
    {
        match self {
            Failure::Unauthorized => ErrorKind::Unauthorized,
            Failure::NotFound => ErrorKind::NotFound,
            Failure::StoreUnavailable => ErrorKind::StoreUnavailable,
            _ => ErrorKind::BadRequest,
        }
    }

    /// The status code that goes with this failure; it depends on the kind
    /// alone.
    #[verifier::when_used_as_spec(spec_status)]
    pub fn status(self) -> (res: u16)
        ensures
            res == self.spec_status(),
    {
        match self.kind() {
            ErrorKind::BadRequest => 400,
            ErrorKind::Unauthorized => 401,
            ErrorKind::NotFound => 404,
            ErrorKind::StoreUnavailable => 500,
        }
    }

    /// The message that goes with this failure.
    pub fn message(self) -> (res: &'static str)
        ensures
            res@ == self.spec_message(),
    {
        match self {
            Failure::MalformedBody => "bad request request has to be of 'Content-Type' 'application/json'",
            Failure::MissingAuthorization => "bad request missing authorization header",
            Failure::Unauthorized => "unauthorized",
            Failure::EmptyName => "bad request value of 'name' length has to be greater then or equal to 1",
            Failure::ReservedName => "bad request value of 'name' is a blacklisted term",
            Failure::InvalidUrl => "bad request invalid url",
            Failure::MissingParameter => "bad request",
            Failure::NotFound => "404 does not exist",
            Failure::StoreUnavailable => "store unavailable",
        }
    }
}

/// What the service sends back.
#[derive(Debug)]
pub enum Reply {
    /// The home text.
    Home,
    /// The user and the token issued for them.
    User(UserValueResponse),
    /// Success, with nothing to say.
    Empty,
    /// All slugs, each name with its record.
    Listing(SlugListing),
    /// A redirect to the slug's target.
    Redirect(String),
    /// The request was not served.
    Failure(Failure),
}

pub enum ReplyView {
    Home,
    User(UserValueResponseView),
    Empty,
    Listing(Map<Seq<char>, SlugValueView>),
    Redirect(Seq<char>),
    Failure(Failure),
}

impl View for Reply {
    type V = ReplyView;

    open spec fn view(&self) -> ReplyView {
        match self {
            Reply::Home => ReplyView::Home,
            Reply::User(user) => ReplyView::User(user@),
            Reply::Empty => ReplyView::Empty,
            Reply::Listing(listing) => ReplyView::Listing(listing@),
            Reply::Redirect(target) => ReplyView::Redirect(target@),
            Reply::Failure(failure) => ReplyView::Failure(*failure),
        }
    }
}

/// The status code of a reply.
pub open spec fn reply_status(reply: ReplyView) -> u16 {
    match reply {
        ReplyView::Redirect(_) => 302,
        ReplyView::Failure(failure) => failure.spec_status(),
        _ => 200,
    }
}

impl Reply {
    /// The status code that goes with this reply.
    pub fn status(&self) -> (res: u16)
        ensures
            res == reply_status(self@),
    {
        match self {
            Reply::Redirect(_) => 302,
            Reply::Failure(failure) => failure.status(),
            _ => 200,
        }
    }
}

/// How a request is handled: it is answered at once, or the store is asked
/// first.
#[derive(Debug)]
pub enum Handling {
    /// Send this reply.
    Reply(Reply),
    /// Send the command to the store, and hand its answer to [`advance`] with
    /// the operation.
    Store(StoreCommand, Operation),
}

pub enum HandlingView {
    Reply(ReplyView),
    Store(StoreCommandView, OperationView),
}

impl View for Handling {
    type V = HandlingView;

    open spec fn view(&self) -> HandlingView {
        match self {
            Handling::Reply(reply) => HandlingView::Reply(reply@),
            Handling::Store(command, operation) => HandlingView::Store(command@, operation@),
        }
    }
}

/// The failure that a refused slug is answered with.
pub open spec fn slug_failure(fault: ValidationError) -> Failure {
    match fault {
        ValidationError::InvalidName(NameFault::Empty) => Failure::EmptyName,
        ValidationError::InvalidName(NameFault::Reserved) => Failure::ReservedName,
        ValidationError::InvalidUrl => Failure::InvalidUrl,
    }
}

/// The reply to a finished operation on the store. A slug that resolves is
/// answered with a redirect to its target, and one that does not, with "not
/// found".
pub open spec fn outcome_reply(result: Result<OutcomeView, StoreError>) -> ReplyView {
    match result {
        Ok(OutcomeView::Created) => ReplyView::Empty,
        Ok(OutcomeView::Read(Some(record))) => ReplyView::Redirect(record.url),
        Ok(OutcomeView::Read(None)) => ReplyView::Failure(Failure::NotFound),
        Ok(OutcomeView::Deleted) => ReplyView::Empty,
        Ok(OutcomeView::Listed(listing)) => ReplyView::Listing(listing),
        Err(StoreError::Unavailable) => ReplyView::Failure(Failure::StoreUnavailable),
    }
}

/// How a request goes on with an operation on the store.
pub open spec fn handling_of(progress: ProgressView) -> HandlingView {
    match progress {
        ProgressView::Ask(command, operation) => HandlingView::Store(command, operation),
        ProgressView::Finished(result) => HandlingView::Reply(outcome_reply(result)),
    }
}

/// The reply to a request for a user's token: the body is looked at first,
/// then the header, which must hold the admin key exactly.
pub open spec fn user_reply(
    body: Option<UserPayloadView>,
    request: RequestView,
    admin_key: Seq<char>,
    secret: Seq<char>,
) -> ReplyView {
    match body {
        None => ReplyView::Failure(Failure::MalformedBody),
        Some(payload) => match request.authorization {
            HeaderValueView::Single(presented) => if presented == admin_key {
                ReplyView::User(
                    UserValueResponseView {
                        username: payload.username,
                        token: signed_claim(USERNAME_CLAIM@, payload.username, secret),
                    },
                )
            } else {
                ReplyView::Failure(Failure::Unauthorized)
            },
            _ => ReplyView::Failure(Failure::MissingAuthorization),
        },
    }
}

/// How a request to register a slug is handled: the body is looked at
/// first, then the token, then the name, then the URL. The record's creator
/// is the user of the token.
pub open spec fn registration(
    body: Option<SlugPayloadView>,
    request: RequestView,
    secret: Seq<char>,
    now: Seq<char>,
) -> HandlingView {
    match body {
        None => HandlingView::Reply(ReplyView::Failure(Failure::MalformedBody)),
        Some(payload) => {
            let verdict = request_verdict(request, secret);
            if !verdict.success {
                HandlingView::Reply(ReplyView::Failure(Failure::Unauthorized))
            } else {
                match slug_fault(payload.name, payload.url) {
                    Some(fault) => HandlingView::Reply(ReplyView::Failure(slug_failure(fault))),
                    None => handling_of(creation(payload.name, payload.url, verdict.username, now)),
                }
            }
        },
    }
}

/// How a request to list all slugs is handled.
pub open spec fn listing(request: RequestView, secret: Seq<char>) -> HandlingView {
    if request_verdict(request, secret).success {
        handling_of(enumeration())
    } else {
        HandlingView::Reply(ReplyView::Failure(Failure::Unauthorized))
    }
}

/// How a request to resolve a slug is handled; no credentials are asked for.
pub open spec fn resolution(slug: Option<Seq<char>>) -> HandlingView {
    match slug {
        Some(name) => handling_of(reading(name)),
        None => HandlingView::Reply(ReplyView::Failure(Failure::MissingParameter)),
    }
}

/// How a request to delete a slug is handled: the token is looked at before
/// the path.
pub open spec fn removal(
    slug: Option<Seq<char>>,
    request: RequestView,
    secret: Seq<char>,
) -> HandlingView {
    if request_verdict(request, secret).success {
        match slug {
            Some(name) => handling_of(deletion(name)),
            None => HandlingView::Reply(ReplyView::Failure(Failure::MissingParameter)),
        }
    } else {
        HandlingView::Reply(ReplyView::Failure(Failure::Unauthorized))
    }
}

/// View of a path parameter that may be absent.
pub open spec fn parameter_view(slug: Option<String>) -> Option<Seq<char>> {
    match slug {
        Some(name) => Some(name@),
        None => None,
    }
}

/// The failure that a refused slug is answered with.
fn failure_of(fault: ValidationError) -> (res: Failure)
    ensures
        res == slug_failure(fault),
{
    match fault {
        ValidationError::InvalidName(NameFault::Empty) => Failure::EmptyName,
        ValidationError::InvalidName(NameFault::Reserved) => Failure::ReservedName,
        ValidationError::InvalidUrl => Failure::InvalidUrl,
    }
}

/// Turns a finished operation on the store into a reply.
pub fn reply_to(result: Result<Outcome, StoreError>) -> (res: Reply)
    ensures
        res@ == outcome_reply(result_view(result)),
{
    match result {
        Ok(Outcome::Created) => Reply::Empty,
        Ok(Outcome::Read(Some(record))) => Reply::Redirect(record.url),
        Ok(Outcome::Read(None)) => Reply::Failure(Failure::NotFound),
        Ok(Outcome::Deleted) => Reply::Empty,
        Ok(Outcome::Listed(listing)) => Reply::Listing(listing),
        Err(StoreError::Unavailable) => Reply::Failure(Failure::StoreUnavailable),
    }
}

/// Goes on with a request whose operation on the store stands at `progress`.
fn handle(progress: Progress) -> (res: Handling)
    ensures
        res@ == handling_of(progress@),
{
    match progress {
        Progress::Ask(command, operation) => Handling::Store(command, operation),
        Progress::Finished(result) => Handling::Reply(reply_to(result)),
    }
}

/// The home route.
pub fn home() -> (res: Reply)
    ensures
        res@ == ReplyView::Home,
{
    Reply::Home
}

/// Answers a request for a user's token.
///
/// Whoever presents the admin key is issued a token for the username that
/// they name; no user is looked up. The token verifies under the signing
/// secret as that user.
pub fn post_user(body: Option<UserPayload>, request: &Request, admin_key: &str, secret: String) -> (res:
    Reply)
    ensures
        res@ == user_reply(option_view(body), request@, admin_key@, secret@),
        res matches Reply::User(user) ==> token_verdict(user.token@, secret@) == granted(
            user.username@,
        ),
{
    match body {
        None => Reply::Failure(Failure::MalformedBody),
        Some(payload) => match &request.authorization {
            HeaderValue::Single(presented) => {
                if same_text(presented.as_str(), admin_key) {
                    let token = create_user(payload.username.as_str(), secret);
                    Reply::User(UserValueResponse { username: payload.username, token })
                } else {
                    Reply::Failure(Failure::Unauthorized)
                }
            },
            _ => Reply::Failure(Failure::MissingAuthorization),
        },
    }
}

/// Handles a request to register a slug.
pub fn post_slug(body: Option<SlugPayload>, request: &Request, secret: String, now: String) -> (res:
    Handling)
    ensures
        res@ == registration(option_view(body), request@, secret@, now@),
{
    match body {
        None => Handling::Reply(Reply::Failure(Failure::MalformedBody)),
        Some(payload) => {
            let verdict = authorize(request, secret);
            if !verdict.success {
                Handling::Reply(Reply::Failure(Failure::Unauthorized))
            } else {
                match create(payload.name, payload.url, verdict.username, now) {
                    Err(fault) => Handling::Reply(Reply::Failure(failure_of(fault))),
                    Ok(progress) => handle(progress),
                }
            }
        },
    }
}

/// Handles a request to list all slugs.
pub fn get_slugs(request: &Request, secret: String) -> (res: Handling)
    ensures
        res@ == listing(request@, secret@),
{
    if authorize(request, secret).success {
        handle(list_all())
    } else {
        Handling::Reply(Reply::Failure(Failure::Unauthorized))
    }
}

/// Handles a request to resolve a slug.
pub fn get_slug(slug: Option<String>) -> (res: Handling)
    ensures
        res@ == resolution(parameter_view(slug)),
{
    match slug {
        Some(name) => handle(get(name)),
        None => Handling::Reply(Reply::Failure(Failure::MissingParameter)),
    }
}

/// Handles a request to delete a slug.
pub fn delete_slug(slug: Option<String>, request: &Request, secret: String) -> (res: Handling)
    ensures
        res@ == removal(parameter_view(slug), request@, secret@),
{
    if authorize(request, secret).success {
        match slug {
            Some(name) => handle(delete(name)),
            None => Handling::Reply(Reply::Failure(Failure::MissingParameter)),
        }
    } else {
        Handling::Reply(Reply::Failure(Failure::Unauthorized))
    }
}

/// Goes on with a request when the store has answered.
pub fn advance(operation: Operation, answer: StoreAnswer) -> (res: Handling)
    ensures
        res@ == handling_of(step(operation@, answer@)),
{
    handle(resume(operation, answer))
}

} // verus!
