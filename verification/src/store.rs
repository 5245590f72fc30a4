//! The slug lifecycle against a key-value store.
//!
//! The store is a collaborator that the library never calls. Each operation
//! starts by naming the command to send; the caller sends it and hands the
//! answer to [`resume`], which either names the next command or finishes.
//! Nothing is retried, and nothing is looked up before a write: a slug that
//! is created twice is overwritten.

use crate::listing::SlugListing;
use crate::structs::{SlugValue, SlugValueView};
use crate::validate::{name_fault, url_fault, validate_name, validate_url, ValidationError};
use vstd::prelude::*;

verus! {

/// A command for the key-value store.
#[derive(Debug)]
pub enum StoreCommand {
    /// Write `value` under `key`, over whatever is there.
    Put { key: String, value: SlugValue },
    /// Read what is under `key`.
    Get { key: String },
    /// Remove what is under `key`, if anything.
    Delete { key: String },
    /// Enumerate the keys.
    ListKeys,
}

pub enum StoreCommandView {
    Put { key: Seq<char>, value: SlugValueView },
    Get { key: Seq<char> },
    Delete { key: Seq<char> },
    ListKeys,
}

impl View for StoreCommand {
    type V = StoreCommandView;

    open spec fn view(&self) -> StoreCommandView {
        match self {
            StoreCommand::Put { key, value } => StoreCommandView::Put { key: key@, value: value@ },
            StoreCommand::Get { key } => StoreCommandView::Get { key: key@ },
            StoreCommand::Delete { key } => StoreCommandView::Delete { key: key@ },
            StoreCommand::ListKeys => StoreCommandView::ListKeys,
        }
    }
}

/// What a read brought back.
#[derive(Debug)]
pub enum Fetched {
    /// A record.
    Found(SlugValue),
    /// Nothing is stored under the key.
    Missing,
    /// What is stored under the key is not a record.
    Malformed,
}

pub enum FetchedView {
    Found(SlugValueView),
    Missing,
    Malformed,
}

impl View for Fetched {
    type V = FetchedView;

    open spec fn view(&self) -> FetchedView {
        match self {
            Fetched::Found(value) => FetchedView::Found(value@),
            Fetched::Missing => FetchedView::Missing,
            Fetched::Malformed => FetchedView::Malformed,
        }
    }
}

/// The store's answer to a command.
#[derive(Debug)]
pub enum StoreAnswer {
    /// The write or the removal was carried out.
    Done,
    /// The outcome of a read.
    Value(Fetched),
    /// The keys that the store enumerated.
    Keys(Vec<String>),
    /// The store could not be reached.
    Failed,
}

pub enum StoreAnswerView {
    Done,
    Value(FetchedView),
    Keys(Seq<Seq<char>>),
    Failed,
}

/// Keys as texts.
pub open spec fn keys_view(keys: Seq<String>) -> Seq<Seq<char>> {
    Seq::new(keys.len(), |i: int| keys[i]@)
}

impl View for StoreAnswer {
    type V = StoreAnswerView;

    open spec fn view(&self) -> StoreAnswerView {
        match self {
            StoreAnswer::Done => StoreAnswerView::Done,
            StoreAnswer::Value(fetched) => StoreAnswerView::Value(fetched@),
            StoreAnswer::Keys(keys) => StoreAnswerView::Keys(keys_view(keys@)),
            StoreAnswer::Failed => StoreAnswerView::Failed,
        }
    }
}

/// Why an operation on the store did not finish.
#[derive(Clone, Copy, Debug, PartialEq, Eq, Structural)]
pub enum StoreError {
    /// The store could not be reached, or its answer did not fit the command.
    Unavailable,
}

/// A listing in progress: one key is being read, others wait their turn.
#[derive(Debug)]
pub struct Hydration {
    awaited: String,
    keys: Vec<String>,
    next: usize,
    found: SlugListing,
}

impl Hydration {
    /// The key whose record is being read.
    pub closed spec fn awaited(&self) -> Seq<char> {
        self.awaited@
    }

    /// The keys that are read after it, in order.
    pub closed spec fn later(&self) -> Seq<Seq<char>> {
        later_keys(self.keys@, self.next)
    }

    /// The records gathered so far.
    pub closed spec fn found(&self) -> Map<Seq<char>, SlugValueView> {
        self.found@
    }
}

/// The keys from position `next` on.
pub open spec fn later_keys(keys: Seq<String>, next: usize) -> Seq<Seq<char>> {
    if next <= keys.len() {
        keys_view(keys).skip(next as int)
    } else {
        Seq::empty()
    }
}

/// The operation whose command is with the store.
#[derive(Debug)]
pub enum Operation {
    Creating,
    Reading,
    Deleting,
    Enumerating,
    Hydrating(Hydration),
}

pub enum OperationView {
    Creating,
    Reading,
    Deleting,
    Enumerating,
    Hydrating { awaited: Seq<char>, later: Seq<Seq<char>>, found: Map<Seq<char>, SlugValueView> },
}

impl View for Operation {
    type V = OperationView;

    open spec fn view(&self) -> OperationView {
        match self {
            Operation::Creating => OperationView::Creating,
            Operation::Reading => OperationView::Reading,
            Operation::Deleting => OperationView::Deleting,
            Operation::Enumerating => OperationView::Enumerating,
            Operation::Hydrating(state) => OperationView::Hydrating {
                awaited: state.awaited(),
                later: state.later(),
                found: state.found(),
            },
        }
    }
}

/// What a finished operation brought.
#[derive(Debug)]
pub enum Outcome {
    /// The slug is written.
    Created,
    /// The record under the name, or nothing where the name has none that can
    /// be read.
    Read(Option<SlugValue>),
    /// Nothing is stored under the name any more.
    Deleted,
    /// All slugs whose records could be read.
    Listed(SlugListing),
}

pub enum OutcomeView {
    Created,
    Read(Option<SlugValueView>),
    Deleted,
    Listed(Map<Seq<char>, SlugValueView>),
}

impl View for Outcome {
    type V = OutcomeView;

    open spec fn view(&self) -> OutcomeView {
        match self {
            Outcome::Created => OutcomeView::Created,
            Outcome::Read(Some(value)) => OutcomeView::Read(Some(value@)),
            Outcome::Read(None) => OutcomeView::Read(None),
            Outcome::Deleted => OutcomeView::Deleted,
            Outcome::Listed(listing) => OutcomeView::Listed(listing@),
        }
    }
}

/// Where an operation stands: it waits for the store, or it is over.
#[derive(Debug)]
pub enum Progress {
    /// Send the command, and hand the answer to [`resume`] with the operation.
    Ask(StoreCommand, Operation),
    /// The operation is over.
    Finished(Result<Outcome, StoreError>),
}

pub enum ProgressView {
    Ask(StoreCommandView, OperationView),
    Finished(Result<OutcomeView, StoreError>),
}

/// View of how an operation ended.
pub open spec fn result_view(result: Result<Outcome, StoreError>) -> Result<
    OutcomeView,
    StoreError,
> {
    match result {
        Ok(outcome) => Ok(outcome@),
        Err(error) => Err(error),
    }
}

impl View for Progress {
    type V = ProgressView;

    open spec fn view(&self) -> ProgressView {
        match self {
            Progress::Ask(command, operation) => ProgressView::Ask(command@, operation@),
            Progress::Finished(result) => ProgressView::Finished(result_view(*result)),
        }
    }
}

/// What is wrong with a slug, if anything. The name is judged before the URL.
pub open spec fn slug_fault(name: Seq<char>, url: Seq<char>) -> Option<ValidationError> {
    match name_fault(name) {
        Some(fault) => Some(ValidationError::InvalidName(fault)),
        None => url_fault(url),
    }
}

/// The write that creates a slug: the record goes under the name.
pub open spec fn record_write(
    name: Seq<char>,
    url: Seq<char>,
    creator: Seq<char>,
    now: Seq<char>,
) -> StoreCommandView {
    StoreCommandView::Put { key: name, value: SlugValueView { url, creator, created_at: now } }
}

/// The first step of creating a slug.
pub open spec fn creation(
    name: Seq<char>,
    url: Seq<char>,
    creator: Seq<char>,
    now: Seq<char>,
) -> ProgressView {
    ProgressView::Ask(record_write(name, url, creator, now), OperationView::Creating)
}

/// The first step of reading a slug.
pub open spec fn reading(name: Seq<char>) -> ProgressView {
    ProgressView::Ask(StoreCommandView::Get { key: name }, OperationView::Reading)
}

/// The first step of deleting a slug.
pub open spec fn deletion(name: Seq<char>) -> ProgressView {
    ProgressView::Ask(StoreCommandView::Delete { key: name }, OperationView::Deleting)
}

/// The first step of listing all slugs.
pub open spec fn enumeration() -> ProgressView {
    ProgressView::Ask(StoreCommandView::ListKeys, OperationView::Enumerating)
}

/// What a read counts for: a record that is missing or malformed is absent.
pub open spec fn readable(fetched: FetchedView) -> Option<SlugValueView> {
    match fetched {
        FetchedView::Found(value) => Some(value),
        _ => None,
    }
}

/// The listing after the read of `key`: a record that was found is put under
/// the key, and a key without one is left out.
pub open spec fn absorb(
    found: Map<Seq<char>, SlugValueView>,
    key: Seq<char>,
    fetched: FetchedView,
) -> Map<Seq<char>, SlugValueView> {
    match fetched {
        FetchedView::Found(value) => found.insert(key, value),
        _ => found,
    }
}

/// A listing with `pending` keys still to read: the first of them is read
/// next, and with none left the listing is over.
pub open spec fn hydrate(
    pending: Seq<Seq<char>>,
    found: Map<Seq<char>, SlugValueView>,
) -> ProgressView {
    if pending.len() == 0 {
        ProgressView::Finished(Ok(OutcomeView::Listed(found)))
    } else {
        ProgressView::Ask(
            StoreCommandView::Get { key: pending.first() },
            OperationView::Hydrating {
                awaited: pending.first(),
                later: pending.drop_first(),
                found,
            },
        )
    }
}

/// How an operation goes on when the store has answered. An answer that the
/// store could not give, or that does not fit the command, ends the operation
/// as unavailable.
pub open spec fn step(operation: OperationView, answer: StoreAnswerView) -> ProgressView {
    match (operation, answer) {
        (OperationView::Creating, StoreAnswerView::Done) => ProgressView::Finished(
            Ok(OutcomeView::Created),
        ),
        (OperationView::Reading, StoreAnswerView::Value(fetched)) => ProgressView::Finished(
            Ok(OutcomeView::Read(readable(fetched))),
        ),
        (OperationView::Deleting, StoreAnswerView::Done) => ProgressView::Finished(
            Ok(OutcomeView::Deleted),
        ),
        (OperationView::Enumerating, StoreAnswerView::Keys(keys)) => hydrate(keys, Map::empty()),
        (
            OperationView::Hydrating { awaited, later, found },
            StoreAnswerView::Value(fetched),
        ) => hydrate(later, absorb(found, awaited, fetched)),
        _ => ProgressView::Finished(Err(StoreError::Unavailable)),
    }
}

/// Starts the creation of a slug.
///
/// A name or URL that is refused ends the operation before any command; an
/// accepted slug is written under its name with the creator and the time
/// that were handed in, whether or not the name is taken.
pub fn create(name: String, url: String, creator: String, now: String) -> (res: Result<
    Progress,
    ValidationError,
>)
    ensures
        match res {
            Ok(progress) => slug_fault(name@, url@) is None && progress@ == creation(
                name@,
                url@,
                creator@,
                now@,
            ),
            Err(fault) => slug_fault(name@, url@) == Some(fault),
        },
{
    match validate_name(name.as_str()) {
        Err(fault) => Err(fault),
        Ok(()) => match validate_url(url.as_str()) {
            Err(fault) => Err(fault),
            Ok(()) => Ok(
                Progress::Ask(
                    StoreCommand::Put { key: name, value: SlugValue { url, creator, created_at: now } },
                    Operation::Creating,
                ),
            ),
        },
    }
}

/// Starts the read of the slug called `name`.
pub fn get(name: String) -> (res: Progress)
    ensures
        res@ == reading(name@),
{
    Progress::Ask(StoreCommand::Get { key: name }, Operation::Reading)
}

/// Starts the removal of the slug called `name`, whether or not it exists.
pub fn delete(name: String) -> (res: Progress)
    ensures
        res@ == deletion(name@),
{
    Progress::Ask(StoreCommand::Delete { key: name }, Operation::Deleting)
}

/// Starts the listing of all slugs.
pub fn list_all() -> (res: Progress)
    ensures
        res@ == enumeration(),
{
    Progress::Ask(StoreCommand::ListKeys, Operation::Enumerating)
}

/// Goes on with a listing whose keys from `next` on are still to read.
fn hydrate_from(keys: Vec<String>, next: usize, found: SlugListing) -> (res: Progress)
    ensures
        res@ == hydrate(later_keys(keys@, next), found@),
{
    if next < keys.len() {
        let awaited = keys[next].clone();
        let key = awaited.clone();
        proof {
            let pending = later_keys(keys@, next);
            assert(pending.first() == keys@[next as int]@);
            assert(pending.drop_first() =~= later_keys(keys@, (next + 1) as usize));
        }
        Progress::Ask(
            StoreCommand::Get { key },
            Operation::Hydrating(Hydration { awaited, keys, next: next + 1, found }),
        )
    } else {
        assert(later_keys(keys@, next).len() == 0);
        Progress::Finished(Ok(Outcome::Listed(found)))
    }
}

/// Goes on with an operation when the store has answered its command.
pub fn resume(operation: Operation, answer: StoreAnswer) -> (res: Progress)
    ensures
        res@ == step(operation@, answer@),
{
    match (operation, answer) {
        (Operation::Creating, StoreAnswer::Done) => Progress::Finished(Ok(Outcome::Created)),
        (Operation::Reading, StoreAnswer::Value(fetched)) => match fetched {
            Fetched::Found(value) => Progress::Finished(Ok(Outcome::Read(Some(value)))),
            _ => Progress::Finished(Ok(Outcome::Read(None))),
        },
        (Operation::Deleting, StoreAnswer::Done) => Progress::Finished(Ok(Outcome::Deleted)),
        (Operation::Enumerating, StoreAnswer::Keys(keys)) => {
            assert(later_keys(keys@, 0) =~= keys_view(keys@));
            hydrate_from(keys, 0, SlugListing::new())
        },
        (Operation::Hydrating(state), StoreAnswer::Value(fetched)) => {
            let Hydration { awaited, keys, next, found } = state;
            let found = match fetched {
                Fetched::Found(value) => found.insert(awaited, value),
                _ => found,
            };
            hydrate_from(keys, next, found)
        },
        _ => Progress::Finished(Err(StoreError::Unavailable)),
    }
}

} // verus!
