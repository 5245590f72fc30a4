//! The mapping from slug names to their records that a listing returns.

use crate::structs::{SlugValue, SlugValueView};
use crate::text::same_text;
use vstd::prelude::*;

verus! {

/// The entries of a listing as pairs of views.
pub open spec fn entries_view(entries: Seq<(String, SlugValue)>) -> Seq<(Seq<char>, SlugValueView)> {
    Seq::new(entries.len(), |i: int| (entries[i].0@, entries[i].1@))
}

/// No name occurs twice among the entries.
pub open spec fn distinct_names(entries: Seq<(Seq<char>, SlugValueView)>) -> bool {
    forall|i: int, j: int|
        0 <= i < entries.len() && 0 <= j < entries.len() && i != j ==> entries[i].0
            != entries[j].0
}

/// Whether an entry is called `name`.
pub open spec fn names(entries: Seq<(Seq<char>, SlugValueView)>, name: Seq<char>) -> bool {
    exists|i: int| 0 <= i < entries.len() && #[trigger] entries[i].0 == name
}

/// The mapping that the entries stand for: each name goes to the record
/// listed with it.
pub open spec fn entries_map(entries: Seq<(Seq<char>, SlugValueView)>) -> Map<
    Seq<char>,
    SlugValueView,
> {
    Map::new(
        |name: Seq<char>| names(entries, name),
        |name: Seq<char>|
            entries[choose|i: int| 0 <= i < entries.len() && #[trigger] entries[i].0 == name].1,
    )
}

/// Under distinct names, the mapping holds each entry as it is listed.
pub proof fn lemma_entries_map_holds_each(entries: Seq<(Seq<char>, SlugValueView)>, i: int)
    requires
        distinct_names(entries),
        0 <= i < entries.len(),
    ensures
        entries_map(entries).contains_key(entries[i].0),
        entries_map(entries)[entries[i].0] == entries[i].1,
{
    let name = entries[i].0;
    assert(names(entries, name));
    let chosen = choose|j: int| 0 <= j < entries.len() && #[trigger] entries[j].0 == name;
    assert(chosen == i);
}

/// Adding an entry under a new name extends the mapping by that entry.
pub proof fn lemma_entries_map_push(
    entries: Seq<(Seq<char>, SlugValueView)>,
    name: Seq<char>,
    value: SlugValueView,
)
    requires
        distinct_names(entries),
        !names(entries, name),
    ensures
        distinct_names(entries.push((name, value))),
        entries_map(entries.push((name, value))) == entries_map(entries).insert(name, value),
{
    let longer = entries.push((name, value));
    assert forall|i: int, j: int|
        0 <= i < longer.len() && 0 <= j < longer.len() && i != j implies longer[i].0
        != longer[j].0 by {
        if i < entries.len() {
            assert(longer[i] == entries[i]);
        }
        if j < entries.len() {
            assert(longer[j] == entries[j]);
        }
    }
    let last = entries.len() as int;
    assert(longer[last].0 == name);
    assert forall|other: Seq<char>|
        entries_map(longer).contains_key(other) <==> entries_map(entries).insert(
            name,
            value,
        ).contains_key(other) by {
        if names(longer, other) {
            let i = choose|i: int| 0 <= i < longer.len() && #[trigger] longer[i].0 == other;
            if i < entries.len() {
                assert(entries[i].0 == other);
            }
        }
        if names(entries, other) {
            let i = choose|i: int| 0 <= i < entries.len() && #[trigger] entries[i].0 == other;
            assert(longer[i].0 == other);
        }
    }
    assert forall|other: Seq<char>| entries_map(longer).contains_key(other) implies entries_map(
        longer,
    )[other] == entries_map(entries).insert(name, value)[other] by {
        let i = choose|i: int| 0 <= i < longer.len() && #[trigger] longer[i].0 == other;
        lemma_entries_map_holds_each(longer, i);
        if i < entries.len() {
            assert(longer[i] == entries[i]);
            lemma_entries_map_holds_each(entries, i);
        }
    }
    assert(entries_map(longer) =~= entries_map(entries).insert(name, value));
}

/// Replacing the record of an entry replaces it in the mapping.
pub proof fn lemma_entries_map_update(
    entries: Seq<(Seq<char>, SlugValueView)>,
    at: int,
    value: SlugValueView,
)
    requires
        distinct_names(entries),
        0 <= at < entries.len(),
    ensures
        distinct_names(entries.update(at, (entries[at].0, value))),
        entries_map(entries.update(at, (entries[at].0, value))) == entries_map(entries).insert(
            entries[at].0,
            value,
        ),
{
    let name = entries[at].0;
    let changed = entries.update(at, (name, value));
    assert forall|i: int| 0 <= i < entries.len() implies #[trigger] changed[i].0
        == entries[i].0 by {}
    assert forall|other: Seq<char>|
        entries_map(changed).contains_key(other) <==> entries_map(entries).insert(
            name,
            value,
        ).contains_key(other) by {
        if names(changed, other) {
            let i = choose|i: int| 0 <= i < changed.len() && #[trigger] changed[i].0 == other;
            assert(entries[i].0 == other);
        }
        if names(entries, other) {
            let i = choose|i: int| 0 <= i < entries.len() && #[trigger] entries[i].0 == other;
            assert(changed[i].0 == other);
        }
        assert(changed[at].0 == name);
    }
    assert forall|other: Seq<char>| entries_map(changed).contains_key(other) implies entries_map(
        changed,
    )[other] == entries_map(entries).insert(name, value)[other] by {
        let i = choose|i: int| 0 <= i < changed.len() && #[trigger] changed[i].0 == other;
        lemma_entries_map_holds_each(changed, i);
        if i != at {
            assert(changed[i] == entries[i]);
            lemma_entries_map_holds_each(entries, i);
        }
    }
    assert(entries_map(changed) =~= entries_map(entries).insert(name, value));
}

/// Under distinct names, the mapping has as many names as there are entries.
pub proof fn lemma_entries_map_len(entries: Seq<(Seq<char>, SlugValueView)>)
    requires
        distinct_names(entries),
    ensures
        entries_map(entries).dom().finite(),
        entries_map(entries).dom().len() == entries.len(),
    decreases entries.len(),
{
    if entries.len() == 0 {
        assert(entries_map(entries).dom() =~= Set::<Seq<char>>::empty());
    } else {
        let shorter = entries.drop_last();
        let last = entries.last();
        assert forall|i: int| 0 <= i < shorter.len() implies #[trigger] shorter[i]
            == entries[i] by {}
        lemma_entries_map_len(shorter);
        if names(shorter, last.0) {
            let i = choose|i: int| 0 <= i < shorter.len() && #[trigger] shorter[i].0 == last.0;
            assert(entries[i].0 == entries[entries.len() - 1].0);
        }
        assert(entries =~= shorter.push((last.0, last.1)));
        lemma_entries_map_push(shorter, last.0, last.1);
        assert(entries_map(entries).dom() =~= entries_map(shorter).dom().insert(last.0));
    }
}

/// A mapping from slug names to records, in which no name occurs twice.
#[derive(Debug)]
pub struct SlugListing {
    entries: Vec<(String, SlugValue)>,
}

impl View for SlugListing {
    type V = Map<Seq<char>, SlugValueView>;

    closed spec fn view(&self) -> Map<Seq<char>, SlugValueView> {
        entries_map(entries_view(self.entries@))
    }
}

impl SlugListing {
    #[verifier::type_invariant]
    spec fn well_formed(self) -> bool {
        distinct_names(entries_view(self.entries@))
    }

    /// The listing without entries.
    pub fn new() -> (res: SlugListing)
        ensures
            res@ == Map::<Seq<char>, SlugValueView>::empty(),
    {
        let res = SlugListing { entries: Vec::new() };
        assert(res@ =~= Map::<Seq<char>, SlugValueView>::empty());
        res
    }

    /// Puts `value` under `name`, in place of what was there.
    pub fn insert(self, name: String, value: SlugValue) -> (res: SlugListing)
        ensures
            res@ == self@.insert(name@, value@),
    {
        proof {
            use_type_invariant(&self);
        }
        let ghost before = entries_view(self.entries@);
        let mut entries = self.entries;
        let mut i: usize = 0;
        while i < entries.len()
            invariant
                i <= entries.len(),
                entries_view(entries@) == before,
                self@ == entries_map(before),
                distinct_names(before),
                forall|j: int| 0 <= j < i ==> before[j].0 != name@,
            decreases entries.len() - i,
        {
            assert(before[i as int].0 == entries@[i as int].0@);
            if same_text(entries[i].0.as_str(), name.as_str()) {
                proof {
                    lemma_entries_map_update(before, i as int, value@);
                }
                entries.set(i, (name, value));
                assert(entries_view(entries@) =~= before.update(
                    i as int,
                    (before[i as int].0, value@),
                ));
                return SlugListing { entries };
            }
            i += 1;
        }
        proof {
            lemma_entries_map_push(before, name@, value@);
        }
        entries.push((name, value));
        assert(entries_view(entries@) =~= before.push((name@, value@)));
        SlugListing { entries }
    }

    /// The record under `name`, if the listing has one.
    pub fn get(&self, name: &str) -> (res: Option<SlugValue>)
        ensures
            match res {
                Some(value) => self@.contains_key(name@) && self@[name@] == value@,
                None => !self@.contains_key(name@),
            },
    {
        proof {
            use_type_invariant(self);
        }
        let ghost all = entries_view(self.entries@);
        let mut i: usize = 0;
        while i < self.entries.len()
            invariant
                i <= self.entries.len(),
                all == entries_view(self.entries@),
                distinct_names(all),
                forall|j: int| 0 <= j < i ==> all[j].0 != name@,
            decreases self.entries.len() - i,
        {
            assert(all[i as int].0 == self.entries@[i as int].0@);
            if same_text(self.entries[i].0.as_str(), name) {
                proof {
                    lemma_entries_map_holds_each(all, i as int);
                }
                return Some(self.entries[i].1.duplicate());
            }
            i += 1;
        }
        None
    }

    /// How many names the listing holds.
    pub fn len(&self) -> (res: usize)
        ensures
            self@.dom().finite(),
            res == self@.dom().len(),
    {
        proof {
            use_type_invariant(self);
            lemma_entries_map_len(entries_view(self.entries@));
        }
        self.entries.len()
    }

    /// Hands the entries out, each name once, in the order in which the names
    /// were first put in.
    pub fn into_entries(self) -> (res: Vec<(String, SlugValue)>)
        ensures
            distinct_names(entries_view(res@)),
            entries_map(entries_view(res@)) == self@,
    {
        proof {
            use_type_invariant(&self);
        }
        self.entries
    }
}

} // verus!
