//! A map from texts to values, kept in the order of its keys.

use crate::text::{self, same_text, text_before};
use vstd::prelude::*;

verus! {

/// The keys of `entries` stand in order and none occurs twice.
pub open spec fn sorted_keys<T>(entries: Seq<(Seq<char>, T)>) -> bool {
    forall|i: int, j: int|
        0 <= i < j < entries.len() ==> text::text_lt(#[trigger] entries[i].0, #[trigger] entries[j].0)
}

/// What `entries` hold under `key`.
pub open spec fn entry_of<T>(entries: Seq<(Seq<char>, T)>, key: Seq<char>) -> Option<T>
    decreases entries.len(),
{
    if entries.len() == 0 {
        None
    } else if entries[0].0 == key {
        Some(entries[0].1)
    } else {
        entry_of(entries.drop_first(), key)
    }
}

/// `entries` with `value` under `key`, in place of what stood there before.
pub open spec fn with_entry<T>(entries: Seq<(Seq<char>, T)>, key: Seq<char>, value: T) -> Seq<
    (Seq<char>, T),
>
    decreases entries.len(),
{
    if entries.len() == 0 {
        seq![(key, value)]
    } else if entries[0].0 == key {
        entries.update(0, (key, value))
    } else if text::text_lt(key, entries[0].0) {
        seq![(key, value)] + entries
    } else {
        seq![entries[0]] + with_entry(entries.drop_first(), key, value)
    }
}

/// `entries` without `key`.
pub open spec fn without_entry<T>(entries: Seq<(Seq<char>, T)>, key: Seq<char>) -> Seq<
    (Seq<char>, T),
>
    decreases entries.len(),
{
    if entries.len() == 0 {
        entries
    } else if entries[0].0 == key {
        entries.drop_first()
    } else {
        seq![entries[0]] + without_entry(entries.drop_first(), key)
    }
}

/// The entries that a list of pairs makes: a later pair replaces an earlier one
/// with the same key.
pub open spec fn entries_from<T>(pairs: Seq<(Seq<char>, T)>) -> Seq<(Seq<char>, T)>
    decreases pairs.len(),
{
    if pairs.len() == 0 {
        Seq::empty()
    } else {
        with_entry(entries_from(pairs.drop_last()), pairs.last().0, pairs.last().1)
    }
}

/// A map gives back what was put into it, and keeps every other entry.
pub broadcast proof fn lemma_entry_of_with_entry<T>(
    entries: Seq<(Seq<char>, T)>,
    key: Seq<char>,
    value: T,
    other: Seq<char>,
)
    ensures
        #[trigger] entry_of(with_entry(entries, key, value), other) == if other == key {
            Some(value)
        } else {
            entry_of(entries, other)
        },
    decreases entries.len(),
{
    if entries.len() == 0 {
        assert(seq![(key, value)].drop_first() =~= entries);
    } else if entries[0].0 == key {
        assert(entries.update(0, (key, value)).drop_first() =~= entries.drop_first());
    } else if text::text_lt(key, entries[0].0) {
        assert((seq![(key, value)] + entries).drop_first() =~= entries);
    } else {
        lemma_entry_of_with_entry(entries.drop_first(), key, value, other);
        assert((seq![entries[0]] + with_entry(entries.drop_first(), key, value)).drop_first()
            =~= with_entry(entries.drop_first(), key, value));
    }
}

/// A key that was taken out is gone; every other entry stays.
pub proof fn lemma_entry_of_without_entry<T>(
    entries: Seq<(Seq<char>, T)>,
    key: Seq<char>,
    other: Seq<char>,
)
    requires
        sorted_keys(entries),
    ensures
        entry_of(without_entry(entries, key), other) == if other == key {
            None
        } else {
            entry_of(entries, other)
        },
    decreases entries.len(),
{
    if entries.len() > 0 {
        assert(sorted_keys(entries.drop_first())) by {
            assert forall|i: int, j: int|
                0 <= i < j < entries.drop_first().len() implies text::text_lt(
                #[trigger] entries.drop_first()[i].0,
                #[trigger] entries.drop_first()[j].0,
            ) by {
                assert(entries.drop_first()[i] == entries[i + 1]);
                assert(entries.drop_first()[j] == entries[j + 1]);
            }
        }
        if entries[0].0 == key {
            if other == key && entry_of(entries.drop_first(), key) is Some {
                lemma_entry_of_index(entries.drop_first(), key);
                let i = choose|i: int|
                    0 <= i < entries.drop_first().len() && #[trigger] entries.drop_first()[i].0
                        == key;
                assert(entries.drop_first()[i] == entries[i + 1]);
                text::lemma_text_lt_irreflexive(key);
            }
        } else {
            lemma_entry_of_without_entry(entries.drop_first(), key, other);
            assert((seq![entries[0]] + without_entry(entries.drop_first(), key)).drop_first()
                =~= without_entry(entries.drop_first(), key));
        }
    }
}

/// An entry that is found stands at some place.
pub proof fn lemma_entry_of_index<T>(entries: Seq<(Seq<char>, T)>, key: Seq<char>)
    ensures
        entry_of(entries, key) is Some ==> exists|i: int|
            0 <= i < entries.len() && #[trigger] entries[i].0 == key && entries[i].1 == entry_of(
                entries,
                key,
            )->0,
        entry_of(entries, key) is None ==> forall|i: int|
            0 <= i < entries.len() ==> #[trigger] entries[i].0 != key,
    decreases entries.len(),
{
    if entries.len() > 0 {
        let rest = entries.drop_first();
        lemma_entry_of_index(rest, key);
        if entries[0].0 == key {
            assert(entries[0].0 == key);
        } else if entry_of(rest, key) is Some {
            let i = choose|i: int|
                0 <= i < rest.len() && #[trigger] rest[i].0 == key && rest[i].1 == entry_of(
                    rest,
                    key,
                )->0;
            assert(entries[i + 1] == rest[i]);
        } else {
            assert forall|i: int| 0 <= i < entries.len() implies #[trigger] entries[i].0
                != key by {
                if i > 0 {
                    assert(entries[i] == rest[i - 1]);
                }
            }
        }
    }
}

/// The entries that a list of pairs makes hold each pair that no later one
/// replaces.
pub proof fn lemma_entries_from_hold<T>(pairs: Seq<(Seq<char>, T)>, at: int)
    requires
        0 <= at < pairs.len(),
        forall|j: int| at < j < pairs.len() ==> #[trigger] pairs[j].0 != pairs[at].0,
    ensures
        entry_of(entries_from(pairs), pairs[at].0) == Some(pairs[at].1),
    decreases pairs.len(),
{
    let last = pairs.len() - 1;
    lemma_entry_of_with_entry(
        entries_from(pairs.drop_last()),
        pairs.last().0,
        pairs.last().1,
        pairs[at].0,
    );
    if at < last {
        assert(pairs[last].0 != pairs[at].0);
        assert forall|j: int| at < j < pairs.drop_last().len() implies #[trigger] pairs.drop_last()[j].0
            != pairs.drop_last()[at].0 by {
            assert(pairs.drop_last()[j] == pairs[j]);
        }
        lemma_entries_from_hold(pairs.drop_last(), at);
    }
}

/// What stands under a key is what its first entry holds.
proof fn lemma_entry_of_first<T>(entries: Seq<(Seq<char>, T)>, key: Seq<char>, at: int)
    requires
        0 <= at <= entries.len(),
        forall|i: int| 0 <= i < at ==> #[trigger] entries[i].0 != key,
        at < entries.len() ==> entries[at].0 == key,
    ensures
        entry_of(entries, key) == if at < entries.len() {
            Some(entries[at].1)
        } else {
            None
        },
    decreases at,
{
    if at > 0 {
        let rest = entries.drop_first();
        assert forall|i: int| 0 <= i < at - 1 implies #[trigger] rest[i].0 != key by {
            assert(rest[i] == entries[i + 1]);
        }
        lemma_entry_of_first(rest, key, at - 1);
    }
}

proof fn lemma_with_entry_place<T>(
    entries: Seq<(Seq<char>, T)>,
    key: Seq<char>,
    value: T,
    at: int,
)
    requires
        0 <= at <= entries.len(),
        forall|i: int| 0 <= i < at ==> text::text_lt(#[trigger] entries[i].0, key),
        at < entries.len() ==> !text::text_lt(entries[at].0, key),
    ensures
        with_entry(entries, key, value) == if at < entries.len() && entries[at].0 == key {
            entries.update(at, (key, value))
        } else {
            entries.insert(at, (key, value))
        },
    decreases at,
{
    if at == 0 {
        if entries.len() > 0 {
            text::lemma_text_lt_total(entries[0].0, key);
            assert(seq![(key, value)] + entries =~= entries.insert(0, (key, value)));
        } else {
            assert(seq![(key, value)] =~= entries.insert(0, (key, value)));
        }
    } else {
        let rest = entries.drop_first();
        assert forall|i: int| 0 <= i < at - 1 implies text::text_lt(#[trigger] rest[i].0, key) by {
            assert(rest[i] == entries[i + 1]);
        }
        lemma_with_entry_place(rest, key, value, at - 1);
        assert(text::text_lt(entries[0].0, key));
        if text::text_lt(key, entries[0].0) {
            text::lemma_text_lt_transitive(key, entries[0].0, key);
            text::lemma_text_lt_irreflexive(key);
        }
        if entries[0].0 == key {
            text::lemma_text_lt_irreflexive(key);
        }
        if at < entries.len() && entries[at].0 == key {
            assert(seq![entries[0]] + rest.update(at - 1, (key, value)) =~= entries.update(
                at,
                (key, value),
            ));
        } else {
            assert(seq![entries[0]] + rest.insert(at - 1, (key, value)) =~= entries.insert(
                at,
                (key, value),
            ));
        }
    }
}

/// A key that comes after all others goes to the end.
pub proof fn lemma_with_entry_last<T>(entries: Seq<(Seq<char>, T)>, key: Seq<char>, value: T)
    requires
        forall|i: int| 0 <= i < entries.len() ==> text::text_lt(#[trigger] entries[i].0, key),
    ensures
        with_entry(entries, key, value) == entries.push((key, value)),
{
    lemma_with_entry_place(entries, key, value, entries.len() as int);
    assert(entries.insert(entries.len() as int, (key, value)) =~= entries.push((key, value)));
}

/// A key that was not there makes one entry more.
pub proof fn lemma_with_entry_grows<T>(entries: Seq<(Seq<char>, T)>, key: Seq<char>, value: T)
    requires
        entry_of(entries, key) is None,
    ensures
        with_entry(entries, key, value).len() == entries.len() + 1,
    decreases entries.len(),
{
    if entries.len() > 0 && !text::text_lt(key, entries[0].0) {
        lemma_with_entry_grows(entries.drop_first(), key, value);
    }
}

/// Putting an entry in makes no other.
pub proof fn lemma_with_entry_entries<T>(entries: Seq<(Seq<char>, T)>, key: Seq<char>, value: T)
    ensures
        with_entry(entries, key, value).len() <= entries.len() + 1,
        forall|at: int|
            0 <= at < with_entry(entries, key, value).len() ==> (#[trigger] with_entry(
                entries,
                key,
                value,
            )[at]) == (key, value) || entries.contains(with_entry(entries, key, value)[at]),
    decreases entries.len(),
{
    let full = with_entry(entries, key, value);
    if entries.len() > 0 {
        let rest = entries.drop_first();
        lemma_with_entry_entries(rest, key, value);
        assert forall|at: int| 0 <= at < full.len() implies (#[trigger] full[at]) == (key, value)
            || entries.contains(full[at]) by {
            if entries[0].0 == key {
                if at > 0 {
                    assert(full[at] == entries[at]);
                }
            } else if text::text_lt(key, entries[0].0) {
                if at > 0 {
                    assert(full[at] == entries[at - 1]);
                }
            } else if at == 0 {
                assert(full[0] == entries[0]);
            } else {
                let longer = with_entry(rest, key, value);
                assert(full[at] == longer[at - 1]);
                if longer[at - 1] != (key, value) {
                    let i = choose|i: int| 0 <= i < rest.len() && rest[i] == longer[at - 1];
                    assert(entries[i + 1] == full[at]);
                }
            }
        }
    }
}

/// Some entry has a key.
pub open spec fn has_key<T>(entries: Seq<(Seq<char>, T)>, key: Seq<char>) -> bool {
    exists|i: int| 0 <= i < entries.len() && #[trigger] entries[i].0 == key
}

/// Putting an entry in keeps the keys in order.
pub proof fn lemma_with_entry_sorted<T>(entries: Seq<(Seq<char>, T)>, key: Seq<char>, value: T)
    requires
        sorted_keys(entries),
    ensures
        sorted_keys(with_entry(entries, key, value)),
        forall|j: int|
            0 <= j < with_entry(entries, key, value).len() ==> {
                ||| (#[trigger] with_entry(entries, key, value)[j]).0 == key
                ||| has_key(entries, with_entry(entries, key, value)[j].0)
            },
    decreases entries.len(),
{
    let full = with_entry(entries, key, value);
    if entries.len() > 0 {
        let first = entries[0];
        let rest = entries.drop_first();
        assert(sorted_keys(rest)) by {
            assert forall|i: int, j: int| 0 <= i < j < rest.len() implies text::text_lt(
                #[trigger] rest[i].0,
                #[trigger] rest[j].0,
            ) by {
                assert(rest[i] == entries[i + 1]);
                assert(rest[j] == entries[j + 1]);
            }
        }
        if first.0 == key {
            assert forall|j: int| 0 <= j < full.len() implies (#[trigger] full[j]).0
                == entries[j].0 by {}
            assert forall|j: int| 0 <= j < full.len() implies has_key(
                entries,
                (#[trigger] full[j]).0,
            ) by {
                assert(entries[j].0 == full[j].0);
            }
        } else if text::text_lt(key, first.0) {
            assert forall|i: int, j: int| 0 <= i < j < full.len() implies text::text_lt(
                #[trigger] full[i].0,
                #[trigger] full[j].0,
            ) by {
                assert(full[j] == entries[j - 1]);
                if i == 0 {
                    if j > 1 {
                        text::lemma_text_lt_transitive(key, first.0, entries[j - 1].0);
                    }
                } else {
                    assert(full[i] == entries[i - 1]);
                }
            }
            assert forall|j: int| 0 <= j < full.len() implies (#[trigger] full[j]).0 == key
                || has_key(entries, full[j].0) by {
                if j > 0 {
                    assert(entries[j - 1].0 == full[j].0);
                }
            }
        } else {
            text::lemma_text_lt_total(first.0, key);
            lemma_with_entry_sorted(rest, key, value);
            let longer = with_entry(rest, key, value);
            assert forall|j: int| 0 <= j < longer.len() implies text::text_lt(
                first.0,
                (#[trigger] longer[j]).0,
            ) && (longer[j].0 == key || has_key(entries, longer[j].0)) by {
                if longer[j].0 != key {
                    let i = choose|i: int|
                        0 <= i < rest.len() && #[trigger] rest[i].0 == longer[j].0;
                    assert(rest[i] == entries[i + 1]);
                    assert(entries[i + 1].0 == longer[j].0);
                }
            }
            assert forall|i: int, j: int| 0 <= i < j < full.len() implies text::text_lt(
                #[trigger] full[i].0,
                #[trigger] full[j].0,
            ) by {
                assert(full[j] == longer[j - 1]);
                if i > 0 {
                    assert(full[i] == longer[i - 1]);
                }
            }
            assert forall|j: int| 0 <= j < full.len() implies (#[trigger] full[j]).0 == key
                || has_key(entries, full[j].0) by {
                if j > 0 {
                    assert(full[j] == longer[j - 1]);
                } else {
                    assert(entries[0].0 == full[0].0);
                }
            }
        }
    }
}

/// Taking a key out leaves every other entry.
pub proof fn lemma_without_entry_keeps<T>(
    entries: Seq<(Seq<char>, T)>,
    key: Seq<char>,
    other: Seq<char>,
)
    requires
        other != key,
    ensures
        entry_of(without_entry(entries, key), other) == entry_of(entries, other),
    decreases entries.len(),
{
    if entries.len() > 0 && entries[0].0 != key {
        lemma_without_entry_keeps(entries.drop_first(), key, other);
        assert((seq![entries[0]] + without_entry(entries.drop_first(), key)).drop_first()
            =~= without_entry(entries.drop_first(), key));
    }
}

proof fn lemma_without_entry_place<T>(entries: Seq<(Seq<char>, T)>, key: Seq<char>, at: int)
    requires
        0 <= at <= entries.len(),
        forall|i: int| 0 <= i < at ==> #[trigger] entries[i].0 != key,
        at < entries.len() ==> entries[at].0 == key,
    ensures
        without_entry(entries, key) == if at < entries.len() {
            entries.remove(at)
        } else {
            entries
        },
    decreases at,
{
    if at == 0 {
        if entries.len() > 0 {
            assert(entries.drop_first() =~= entries.remove(0));
        }
    } else {
        let rest = entries.drop_first();
        assert forall|i: int| 0 <= i < at - 1 implies #[trigger] rest[i].0 != key by {
            assert(rest[i] == entries[i + 1]);
        }
        lemma_without_entry_place(rest, key, at - 1);
        if at < entries.len() {
            assert(seq![entries[0]] + rest.remove(at - 1) =~= entries.remove(at));
        } else {
            assert(seq![entries[0]] + rest =~= entries);
        }
    }
}

/// A map from texts to values. Its entries stand in the order of their keys, and
/// no key occurs twice.
#[derive(Debug, PartialEq, Eq)]
pub struct StringMap<V> {
    pub(crate) entries: Vec<(String, V)>,
}

spec fn keys_in_order<V>(entries: Seq<(String, V)>) -> bool {
    forall|i: int, j: int|
        0 <= i < j < entries.len() ==> text::text_lt(#[trigger] entries[i].0@, #[trigger] entries[j].0@)
}

impl<V: View> View for StringMap<V> {
    type V = Seq<(Seq<char>, V::V)>;

    closed spec fn view(&self) -> Seq<(Seq<char>, V::V)> {
        Seq::new(self.entries@.len(), |i: int| (self.entries@[i].0@, self.entries@[i].1@))
    }
}

/// What a map shows of the entries that it keeps.
pub(crate) proof fn lemma_map_view<V: View>(map: StringMap<V>)
    ensures
        map@ == Seq::new(map.entries@.len(), |i: int| (map.entries@[i].0@, map.entries@[i].1@)),
{
}

impl<V> StringMap<V> {
    #[verifier::type_invariant]
    spec fn in_order(self) -> bool {
        keys_in_order(self.entries@)
    }
}

impl<V: View> StringMap<V> {
    /// A map without entries.
    pub fn new() -> (map: Self)
        ensures
            map@ == Seq::<(Seq<char>, V::V)>::empty(),
    {
        StringMap { entries: Vec::new() }
    }

    /// The map that a list of pairs makes; a later pair replaces an earlier one
    /// with the same key.
    pub fn from_pairs(pairs: Vec<(String, V)>) -> (map: Self)
        ensures
            map@ == entries_from(
                Seq::new(pairs@.len(), |i: int| (pairs@[i].0@, pairs@[i].1@)),
            ),
    {
        let ghost all = Seq::new(pairs@.len(), |i: int| (pairs@[i].0@, pairs@[i].1@));
        let mut map = StringMap::new();
        for pair in iter: pairs
            invariant
                iter.seq() == pairs@,
                all == Seq::new(pairs@.len(), |i: int| (pairs@[i].0@, pairs@[i].1@)),
                map@ == entries_from(all.take(iter.index() as int)),
        {
            proof {
                let next = all.take(iter.index() + 1);
                assert(next.drop_last() =~= all.take(iter.index() as int));
                assert(next.last() == (pair.0@, pair.1@));
            }
            map.insert(pair.0, pair.1);
        }
        assert(all.take(all.len() as int) =~= all);
        map
    }

    /// How many entries the map has.
    pub fn len(&self) -> (length: usize)
        ensures
            length == self@.len(),
            sorted_keys(self@),
    {
        proof {
            use_type_invariant(self);
        }
        self.entries.len()
    }

    /// Whether the map has no entry.
    pub fn is_empty(&self) -> (empty: bool)
        ensures
            empty == (self@.len() == 0),
    {
        self.entries.len() == 0
    }

    /// The key at a place in the order.
    pub fn key_at(&self, at: usize) -> (key: &String)
        requires
            at < self@.len(),
        ensures
            key@ == self@[at as int].0,
    {
        &self.entries[at].0
    }

    /// The value at a place in the order.
    pub fn value_at(&self, at: usize) -> (value: &V)
        requires
            at < self@.len(),
        ensures
            value@ == self@[at as int].1,
    {
        &self.entries[at].1
    }

    /// What stands under a key.
    pub fn get(&self, key: &str) -> (value: Option<&V>)
        ensures
            match value {
                Some(found) => entry_of(self@, key@) == Some(found@),
                None => entry_of(self@, key@) is None,
            },
    {
        let mut at: usize = 0;
        while at < self.entries.len()
            invariant
                at <= self.entries.len(),
                self.entries@.len() == self@.len(),
                forall|i: int| 0 <= i < at ==> #[trigger] self@[i].0 != key@,
            decreases self.entries.len() - at,
        {
            if same_text(self.entries[at].0.as_str(), key) {
                proof {
                    assert(self@[at as int].0 == key@);
                    lemma_entry_of_first(self@, key@, at as int);
                }
                return Some(&self.entries[at].1);
            }
            at = at + 1;
        }
        proof {
            lemma_entry_of_first(self@, key@, at as int);
        }
        None
    }

    /// Whether something stands under a key.
    pub fn contains_key(&self, key: &str) -> (found: bool)
        ensures
            found == (entry_of(self@, key@) is Some),
    {
        self.get(key).is_some()
    }

    /// Puts a value under a key, in place of what stood there before.
    pub fn insert(&mut self, key: String, value: V)
        ensures
            final(self)@ == with_entry(old(self)@, key@, value@),
    {
        proof {
            use_type_invariant(&*self);
        }
        let ghost before = self@;
        let mut entries: Vec<(String, V)> = Vec::new();
        std::mem::swap(&mut entries, &mut self.entries);
        let ghost kept = entries@;
        let mut at: usize = 0;
        while at < entries.len() && text_before(entries[at].0.as_str(), key.as_str())
            invariant
                at <= entries.len(),
                forall|i: int| 0 <= i < at ==> text::text_lt(#[trigger] entries@[i].0@, key@),
            decreases entries.len() - at,
        {
            at = at + 1;
        }
        proof {
            assert forall|i: int| 0 <= i < at implies text::text_lt(#[trigger] before[i].0, key@) by {
                assert(before[i].0 == entries@[i].0@);
            }
            lemma_with_entry_place(before, key@, value@, at as int);
            if at < entries.len() {
                text::lemma_text_lt_total(entries@[at as int].0@, key@);
            }
        }
        if at < entries.len() && same_text(entries[at].0.as_str(), key.as_str()) {
            entries.set(at, (key, value));
            proof {
                assert(keys_in_order(entries@));
            }
        } else {
            entries.insert(at, (key, value));
            proof {
                assert forall|i: int, j: int| 0 <= i < j < entries@.len() implies text::text_lt(
                    #[trigger] entries@[i].0@,
                    #[trigger] entries@[j].0@,
                ) by {
                    if i == at {
                        assert(entries@[j] == kept[j - 1]);
                        if j - 1 > at {
                            text::lemma_text_lt_transitive(key@, kept[at as int].0@, kept[j - 1].0@);
                        }
                    } else if j == at {
                        assert(entries@[i] == kept[i]);
                    } else if i < at && j > at {
                        assert(entries@[i] == kept[i] && entries@[j] == kept[j - 1]);
                    } else if i > at {
                        assert(entries@[i] == kept[i - 1] && entries@[j] == kept[j - 1]);
                    } else {
                        assert(entries@[i] == kept[i] && entries@[j] == kept[j]);
                    }
                }
            }
        }
        self.entries = entries;
        assert(self@ =~= with_entry(before, key@, value@));
    }

    /// Takes a key out.
    pub fn remove(&mut self, key: &str)
        ensures
            final(self)@ == without_entry(old(self)@, key@),
    {
        proof {
            use_type_invariant(&*self);
        }
        let ghost before = self@;
        let mut entries: Vec<(String, V)> = Vec::new();
        std::mem::swap(&mut entries, &mut self.entries);
        let ghost kept = entries@;
        let mut at: usize = 0;
        while at < entries.len() && !same_text(entries[at].0.as_str(), key)
            invariant
                at <= entries.len(),
                forall|i: int| 0 <= i < at ==> #[trigger] entries@[i].0@ != key@,
            decreases entries.len() - at,
        {
            at = at + 1;
        }
        proof {
            assert forall|i: int| 0 <= i < at implies #[trigger] before[i].0 != key@ by {
                assert(before[i].0 == entries@[i].0@);
            }
            lemma_without_entry_place(before, key@, at as int);
        }
        if at < entries.len() {
            entries.remove(at);
            proof {
                assert forall|i: int, j: int| 0 <= i < j < entries@.len() implies text::text_lt(
                    #[trigger] entries@[i].0@,
                    #[trigger] entries@[j].0@,
                ) by {
                    let a = if i < at {
                        i
                    } else {
                        i + 1
                    };
                    let b = if j < at {
                        j
                    } else {
                        j + 1
                    };
                    assert(entries@[i] == kept[a] && entries@[j] == kept[b]);
                }
            }
        }
        self.entries = entries;
        assert(self@ =~= without_entry(before, key@));
    }
}

impl<V: View + Clone> Clone for StringMap<V> {
    fn clone(&self) -> (map: Self)
        ensures
            map@.len() == self@.len(),
            forall|i: int| 0 <= i < self@.len() ==> (#[trigger] map@[i]).0 == self@[i].0,
    {
        proof {
            use_type_invariant(self);
        }
        let mut entries: Vec<(String, V)> = Vec::new();
        let mut at: usize = 0;
        while at < self.entries.len()
            invariant
                at <= self.entries.len(),
                entries@.len() == at,
                forall|i: int| 0 <= i < at ==> (#[trigger] entries@[i]).0 == self.entries@[i].0,
            decreases self.entries.len() - at,
        {
            let entry = &self.entries[at];
            entries.push((entry.0.clone(), entry.1.clone()));
            at = at + 1;
        }
        StringMap { entries }
    }
}

impl StringMap<String> {
    /// A map with the same entries.
    pub fn duplicate(&self) -> (map: StringMap<String>)
        ensures
            map@ == self@,
    {
        proof {
            use_type_invariant(self);
        }
        let mut entries: Vec<(String, String)> = Vec::new();
        let mut at: usize = 0;
        while at < self.entries.len()
            invariant
                at <= self.entries.len(),
                entries@ == self.entries@.take(at as int),
            decreases self.entries.len() - at,
        {
            let entry = &self.entries[at];
            entries.push((entry.0.clone(), entry.1.clone()));
            at = at + 1;
            assert(entries@ =~= self.entries@.take(at as int));
        }
        assert(entries@ =~= self.entries@);
        StringMap { entries }
    }
}

} // verus!
