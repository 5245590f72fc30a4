//! What the slug lifecycle guarantees against a store that behaves.
//!
//! The store is modelled as a mapping from names to records. The statements
//! below hold of every such mapping and of every input; they are proved from
//! the steps that the operations take.

use crate::auth::{request_verdict, RequestView};
use crate::routes::{
    handling_of, listing, registration, removal, Failure, HandlingView, ReplyView,
};
use crate::store::{
    absorb, hydrate, record_write, step, FetchedView, OperationView, OutcomeView, ProgressView,
    StoreAnswerView, StoreCommandView,
};
use crate::structs::{SlugPayloadView, SlugValueView};
use crate::validate::{has_url_shape, name_fault};
use vstd::prelude::*;

verus! {

/// What a store holds once it has carried out a command.
pub open spec fn store_after(
    store: Map<Seq<char>, SlugValueView>,
    command: StoreCommandView,
) -> Map<Seq<char>, SlugValueView> {
    match command {
        StoreCommandView::Put { key, value } => store.insert(key, value),
        StoreCommandView::Delete { key } => store.remove(key),
        _ => store,
    }
}

/// What a read of `key` brings back from a store.
pub open spec fn fetched_from(store: Map<Seq<char>, SlugValueView>, key: Seq<char>) -> FetchedView {
    if store.contains_key(key) {
        FetchedView::Found(store[key])
    } else {
        FetchedView::Missing
    }
}

/// Whether `answer` is what a store that can be reached and holds `store`
/// says to `command`. The order in which keys are enumerated is left open.
pub open spec fn answers(
    store: Map<Seq<char>, SlugValueView>,
    command: StoreCommandView,
    answer: StoreAnswerView,
) -> bool {
    match command {
        StoreCommandView::Put { .. } => answer == StoreAnswerView::Done,
        StoreCommandView::Delete { .. } => answer == StoreAnswerView::Done,
        StoreCommandView::Get { key } => answer == StoreAnswerView::Value(fetched_from(store, key)),
        StoreCommandView::ListKeys => answer matches StoreAnswerView::Keys(keys)
            && keys.no_duplicates() && keys.to_set() == store.dom(),
    }
}

/// The listing that comes of reading `keys` in order, where `fetched` holds
/// what each read brought back and `found` what was gathered before.
pub open spec fn gather(
    found: Map<Seq<char>, SlugValueView>,
    keys: Seq<Seq<char>>,
    fetched: Seq<FetchedView>,
) -> Map<Seq<char>, SlugValueView>
    decreases keys.len(),
{
    if keys.len() == 0 || fetched.len() != keys.len() {
        found
    } else {
        gather(
            absorb(found, keys.first(), fetched.first()),
            keys.drop_first(),
            fetched.drop_first(),
        )
    }
}

/// Where an operation stands once the store has answered its reads with
/// `fetched`, one after the other.
pub open spec fn drain(progress: ProgressView, fetched: Seq<FetchedView>) -> ProgressView
    decreases fetched.len(),
{
    if fetched.len() == 0 {
        progress
    } else {
        match progress {
            ProgressView::Ask(_, operation) => drain(
                step(operation, StoreAnswerView::Value(fetched.first())),
                fetched.drop_first(),
            ),
            ProgressView::Finished(_) => progress,
        }
    }
}

/// Whether the read at position `i` found a record for `name`.
pub open spec fn found_at(
    keys: Seq<Seq<char>>,
    fetched: Seq<FetchedView>,
    name: Seq<char>,
    i: int,
) -> bool {
    0 <= i < keys.len() && keys[i] == name && fetched[i] is Found
}

/// Last writer wins: when a slug is created twice under one name, a read of
/// that name finds the second record, whatever the store held before, and
/// neither creation is refused by the store.
pub proof fn lemma_last_writer_wins(
    store: Map<Seq<char>, SlugValueView>,
    name: Seq<char>,
    first: SlugValueView,
    second: SlugValueView,
)
    ensures
        ({
            let once = store_after(
                store,
                record_write(name, first.url, first.creator, first.created_at),
            );
            let twice = store_after(
                once,
                record_write(name, second.url, second.creator, second.created_at),
            );
            &&& step(OperationView::Creating, StoreAnswerView::Done) == ProgressView::Finished(
                Ok(OutcomeView::Created),
            )
            &&& fetched_from(twice, name) == FetchedView::Found(second)
            &&& step(OperationView::Reading, StoreAnswerView::Value(fetched_from(twice, name)))
                == ProgressView::Finished(Ok(OutcomeView::Read(Some(second))))
        }),
{
}

/// Creating a slug leaves every other name as it was.
pub proof fn lemma_create_touches_one_name(
    store: Map<Seq<char>, SlugValueView>,
    name: Seq<char>,
    record: SlugValueView,
    other: Seq<char>,
)
    requires
        other != name,
    ensures
        fetched_from(
            store_after(
                store,
                record_write(name, record.url, record.creator, record.created_at),
            ),
            other,
        ) == fetched_from(store, other),
{
}

/// Deleting is idempotent: the removal of a name finishes as deleted whether
/// or not the name exists, a store without the name is left as it was, and
/// after a removal the name reads as missing.
pub proof fn lemma_delete_is_idempotent(store: Map<Seq<char>, SlugValueView>, name: Seq<char>)
    ensures
        step(OperationView::Deleting, StoreAnswerView::Done) == ProgressView::Finished(
            Ok(OutcomeView::Deleted),
        ),
        !store.contains_key(name) ==> store_after(store, StoreCommandView::Delete { key: name })
            == store,
        store_after(
            store_after(store, StoreCommandView::Delete { key: name }),
            StoreCommandView::Delete { key: name },
        ) == store_after(store, StoreCommandView::Delete { key: name }),
        fetched_from(store_after(store, StoreCommandView::Delete { key: name }), name)
            == FetchedView::Missing,
{
    let once = store_after(store, StoreCommandView::Delete { key: name });
    assert(once.remove(name) =~= once);
    if !store.contains_key(name) {
        assert(store.remove(name) =~= store);
    }
}

/// A listing with keys still to read finishes, once each read is answered,
/// with what the reads gathered.
pub proof fn lemma_hydration_finishes(
    pending: Seq<Seq<char>>,
    found: Map<Seq<char>, SlugValueView>,
    fetched: Seq<FetchedView>,
)
    requires
        pending.len() == fetched.len(),
    ensures
        drain(hydrate(pending, found), fetched) == ProgressView::Finished(
            Ok(OutcomeView::Listed(gather(found, pending, fetched))),
        ),
    decreases pending.len(),
{
    if pending.len() > 0 {
        lemma_hydration_finishes(
            pending.drop_first(),
            absorb(found, pending.first(), fetched.first()),
            fetched.drop_first(),
        );
    }
}

/// Listing never fails over a record that cannot be read: whatever each read
/// brings back, the listing finishes with the records that were found.
pub proof fn lemma_listing_skips_unreadable(keys: Seq<Seq<char>>, fetched: Seq<FetchedView>)
    requires
        keys.len() == fetched.len(),
    ensures
        drain(step(OperationView::Enumerating, StoreAnswerView::Keys(keys)), fetched)
            == ProgressView::Finished(
            Ok(OutcomeView::Listed(gather(Map::empty(), keys, fetched))),
        ),
{
    lemma_hydration_finishes(keys, Map::empty(), fetched);
}

/// A name is in what was gathered exactly when it was there before or one of
/// the reads found a record for it.
pub proof fn lemma_gathered_names(
    found: Map<Seq<char>, SlugValueView>,
    keys: Seq<Seq<char>>,
    fetched: Seq<FetchedView>,
    name: Seq<char>,
)
    requires
        keys.len() == fetched.len(),
    ensures
        gather(found, keys, fetched).contains_key(name) <==> (found.contains_key(name)
            || exists|i: int| found_at(keys, fetched, name, i)),
    decreases keys.len(),
{
    if keys.len() > 0 {
        let rest_keys = keys.drop_first();
        let rest_fetched = fetched.drop_first();
        let start = absorb(found, keys.first(), fetched.first());
        lemma_gathered_names(start, rest_keys, rest_fetched, name);
        if exists|i: int| found_at(rest_keys, rest_fetched, name, i) {
            let i = choose|i: int| found_at(rest_keys, rest_fetched, name, i);
            assert(found_at(keys, fetched, name, i + 1));
        }
        if start.contains_key(name) && !found.contains_key(name) {
            assert(found_at(keys, fetched, name, 0));
        }
        if exists|i: int| found_at(keys, fetched, name, i) {
            let i = choose|i: int| found_at(keys, fetched, name, i);
            if i > 0 {
                assert(found_at(rest_keys, rest_fetched, name, i - 1));
            }
        }
    }
}

/// A listing holds a name exactly when a read found a record for it: a key
/// whose record is missing or malformed is left out.
pub proof fn lemma_listed_names(keys: Seq<Seq<char>>, fetched: Seq<FetchedView>, name: Seq<char>)
    requires
        keys.len() == fetched.len(),
    ensures
        gather(Map::empty(), keys, fetched).contains_key(name) <==> exists|i: int|
            found_at(keys, fetched, name, i),
{
    lemma_gathered_names(Map::empty(), keys, fetched, name);
}

/// What was gathered holds, for a key, the record of the last read that
/// found one for it.
pub proof fn lemma_gathered_record(
    found: Map<Seq<char>, SlugValueView>,
    keys: Seq<Seq<char>>,
    fetched: Seq<FetchedView>,
    at: int,
)
    requires
        keys.len() == fetched.len(),
        found_at(keys, fetched, keys[at], at),
        forall|j: int| at < j < keys.len() ==> !found_at(keys, fetched, keys[at], j),
    ensures
        gather(found, keys, fetched).contains_key(keys[at]),
        gather(found, keys, fetched)[keys[at]] == fetched[at]->Found_0,
    decreases keys.len(),
{
    let name = keys[at];
    let rest_keys = keys.drop_first();
    let rest_fetched = fetched.drop_first();
    let start = absorb(found, keys.first(), fetched.first());
    if at > 0 {
        assert(rest_keys[at - 1] == name);
        assert forall|j: int| at - 1 < j < rest_keys.len() implies !#[trigger] found_at(
            rest_keys,
            rest_fetched,
            name,
            j,
        ) by {
            assert(!found_at(keys, fetched, name, j + 1));
        }
        lemma_gathered_record(start, rest_keys, rest_fetched, at - 1);
    } else {
        assert forall|j: int| !found_at(rest_keys, rest_fetched, name, j) by {
            if 0 <= j < rest_keys.len() {
                assert(!found_at(keys, fetched, name, j + 1));
            }
        }
        lemma_gather_keeps(start, rest_keys, rest_fetched, name);
    }
}

/// A name for which no read found a record stays as it was.
pub proof fn lemma_gather_keeps(
    found: Map<Seq<char>, SlugValueView>,
    keys: Seq<Seq<char>>,
    fetched: Seq<FetchedView>,
    name: Seq<char>,
)
    requires
        keys.len() == fetched.len(),
        forall|i: int| !found_at(keys, fetched, name, i),
    ensures
        gather(found, keys, fetched).contains_key(name) == found.contains_key(name),
        found.contains_key(name) ==> gather(found, keys, fetched)[name] == found[name],
    decreases keys.len(),
{
    if keys.len() > 0 {
        let rest_keys = keys.drop_first();
        let rest_fetched = fetched.drop_first();
        let start = absorb(found, keys.first(), fetched.first());
        assert(!found_at(keys, fetched, name, 0));
        assert forall|i: int| !found_at(rest_keys, rest_fetched, name, i) by {
            if 0 <= i < rest_keys.len() {
                assert(!found_at(keys, fetched, name, i + 1));
            }
        }
        lemma_gather_keeps(start, rest_keys, rest_fetched, name);
    }
}

/// A listing of a store that nobody writes to in the meantime is the store:
/// where the keys are those of the store and every read brings back what is
/// under its key, the records gathered are exactly the records stored.
pub proof fn lemma_listing_of_a_quiet_store(
    store: Map<Seq<char>, SlugValueView>,
    keys: Seq<Seq<char>>,
    fetched: Seq<FetchedView>,
)
    requires
        answers(store, StoreCommandView::ListKeys, StoreAnswerView::Keys(keys)),
        fetched.len() == keys.len(),
        forall|i: int|
            0 <= i < keys.len() ==> answers(
                store,
                StoreCommandView::Get { key: keys[i] },
                StoreAnswerView::Value(#[trigger] fetched[i]),
            ),
    ensures
        gather(Map::empty(), keys, fetched) == store,
{
    let listed = gather(Map::empty(), keys, fetched);
    assert forall|name: Seq<char>| listed.contains_key(name) == store.contains_key(name) by {
        lemma_listed_names(keys, fetched, name);
        if store.contains_key(name) {
            assert(keys.to_set().contains(name));
            let i = choose|i: int| 0 <= i < keys.len() && keys[i] == name;
            assert(fetched[i] == fetched_from(store, keys[i]));
            assert(found_at(keys, fetched, name, i));
        }
        if exists|i: int| found_at(keys, fetched, name, i) {
            let i = choose|i: int| found_at(keys, fetched, name, i);
            assert(fetched[i] == fetched_from(store, keys[i]));
        }
    }
    assert forall|name: Seq<char>| listed.contains_key(name) implies listed[name]
        == store[name] by {
        assert(keys.to_set().contains(name));
        let i = choose|i: int| 0 <= i < keys.len() && keys[i] == name;
        assert(fetched[i] == fetched_from(store, keys[i]));
        assert forall|j: int| i < j < keys.len() implies !found_at(keys, fetched, keys[i], j) by {
            assert(keys[j] != keys[i]);
        }
        lemma_gathered_record(Map::empty(), keys, fetched, i);
    }
    assert(listed =~= store);
}

/// A slug that was created resolves: a read of its name from a store that
/// carried out the write is answered with a redirect to the record's URL.
pub proof fn lemma_created_slug_resolves(
    store: Map<Seq<char>, SlugValueView>,
    name: Seq<char>,
    record: SlugValueView,
    answer: StoreAnswerView,
)
    requires
        answers(
            store_after(
                store,
                record_write(name, record.url, record.creator, record.created_at),
            ),
            StoreCommandView::Get { key: name },
            answer,
        ),
    ensures
        handling_of(step(OperationView::Reading, answer)) == HandlingView::Reply(
            ReplyView::Redirect(record.url),
        ),
{
}

/// A slug that was deleted does not resolve: a read of its name from a store
/// that carried out the removal is answered with "not found".
pub proof fn lemma_deleted_slug_is_not_found(
    store: Map<Seq<char>, SlugValueView>,
    name: Seq<char>,
    answer: StoreAnswerView,
)
    requires
        answers(
            store_after(store, StoreCommandView::Delete { key: name }),
            StoreCommandView::Get { key: name },
            answer,
        ),
    ensures
        handling_of(step(OperationView::Reading, answer)) == HandlingView::Reply(
            ReplyView::Failure(Failure::NotFound),
        ),
{
}

/// Only valid records are written, and only for the user of the token: where
/// a registration reaches the store, the name is neither empty nor reserved,
/// the URL has the shape of a URL, the creator is the user whom the request's
/// token names, and the time is the one handed in. Every other registration
/// is answered with a failure.
pub proof fn lemma_registration_writes_valid_records(
    body: Option<SlugPayloadView>,
    request: RequestView,
    secret: Seq<char>,
    now: Seq<char>,
)
    ensures
        match registration(body, request, secret, now) {
            HandlingView::Store(command, operation) => {
                &&& body matches Some(payload)
                &&& request_verdict(request, secret).success
                &&& name_fault(payload.name) is None
                &&& has_url_shape(payload.url)
                &&& command == record_write(
                    payload.name,
                    payload.url,
                    request_verdict(request, secret).username,
                    now,
                )
                &&& operation == OperationView::Creating
            },
            HandlingView::Reply(reply) => reply is Failure,
        },
{
}

/// The routes that ask for a token never reach the store without one: a
/// request whose token does not verify is answered as unauthorized, or as
/// malformed where a body is due and cannot be read.
pub proof fn lemma_no_token_no_store(
    body: Option<SlugPayloadView>,
    slug: Option<Seq<char>>,
    request: RequestView,
    secret: Seq<char>,
    now: Seq<char>,
)
    requires
        !request_verdict(request, secret).success,
    ensures
        registration(body, request, secret, now) == HandlingView::Reply(
            ReplyView::Failure(
                if body is Some {
                    Failure::Unauthorized
                } else {
                    Failure::MalformedBody
                },
            ),
        ),
        listing(request, secret) == HandlingView::Reply(ReplyView::Failure(Failure::Unauthorized)),
        removal(slug, request, secret) == HandlingView::Reply(
            ReplyView::Failure(Failure::Unauthorized),
        ),
{
}

} // verus!
