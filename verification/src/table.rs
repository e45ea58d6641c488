//! Entries in the order of their keys: what an ordered map from text holds.
use vstd::prelude::*;

use crate::text::{
    before, is_before, lemma_before_irreflexive, lemma_before_total, lemma_before_transitive, same,
};

verus! {

/// The keys of a sequence of entries.
pub open spec fn keys<V>(entries: Seq<(Seq<char>, V)>) -> Seq<Seq<char>> {
    Seq::new(entries.len(), |i: int| entries[i].0)
}

/// The index of the first occurrence of `key`, or the length if there is none.
pub open spec fn key_index(all: Seq<Seq<char>>, key: Seq<char>) -> nat
    decreases all.len(),
{
    if all.len() == 0 || all[0] == key {
        0
    } else {
        1 + key_index(all.skip(1), key)
    }
}

/// The index at which `key` stands or belongs: that of the first key that is not
/// before it.
pub open spec fn key_slot(all: Seq<Seq<char>>, key: Seq<char>) -> nat
    decreases all.len(),
{
    if all.len() == 0 || all[0] == key || before(key, all[0]) {
        0
    } else {
        1 + key_slot(all.skip(1), key)
    }
}

/// The value that stands under `key`.
pub open spec fn lookup<V>(entries: Seq<(Seq<char>, V)>, key: Seq<char>) -> Option<V> {
    let i = key_index(keys(entries), key) as int;
    if i < entries.len() {
        Some(entries[i].1)
    } else {
        None
    }
}

/// Whether some entry has the key `key`.
pub open spec fn has_key<V>(entries: Seq<(Seq<char>, V)>, key: Seq<char>) -> bool {
    lookup(entries, key) is Some
}

/// The entries with `value` under `key`.
pub open spec fn put<V>(entries: Seq<(Seq<char>, V)>, key: Seq<char>, value: V) -> Seq<
    (Seq<char>, V),
> {
    let i = key_slot(keys(entries), key) as int;
    if i < entries.len() && entries[i].0 == key {
        entries.update(i, (key, value))
    } else {
        entries.insert(i, (key, value))
    }
}

/// The entries without the first one under `key`.
pub open spec fn without<V>(entries: Seq<(Seq<char>, V)>, key: Seq<char>) -> Seq<(Seq<char>, V)> {
    let i = key_index(keys(entries), key) as int;
    if i < entries.len() {
        entries.remove(i)
    } else {
        entries
    }
}

/// The entries with another value in the first one under `key`.
pub open spec fn changed<V>(entries: Seq<(Seq<char>, V)>, key: Seq<char>, value: V) -> Seq<
    (Seq<char>, V),
> {
    let i = key_index(keys(entries), key) as int;
    if i < entries.len() {
        entries.update(i, (entries[i].0, value))
    } else {
        entries
    }
}

/// Whether the keys stand in strictly increasing order, so that none occurs twice.
pub open spec fn in_order<V>(entries: Seq<(Seq<char>, V)>) -> bool {
    forall|i: int, j: int|
        0 <= i < j < entries.len() ==> before((#[trigger] entries[i]).0, (#[trigger] entries[j]).0)
}

/// What `key_index` finds.
pub proof fn lemma_key_index(all: Seq<Seq<char>>, key: Seq<char>)
    ensures
        key_index(all, key) <= all.len(),
        key_index(all, key) < all.len() ==> all[key_index(all, key) as int] == key,
        forall|i: int| 0 <= i < key_index(all, key) ==> all[i] != key,
    decreases all.len(),
{
    if all.len() > 0 && all[0] != key {
        lemma_key_index(all.skip(1), key);
        assert forall|i: int| 0 <= i < key_index(all, key) implies all[i] != key by {
            if i > 0 {
                assert(all[i] == all.skip(1)[i - 1]);
            }
        }
    }
}

/// What `key_slot` finds.
pub proof fn lemma_key_slot(all: Seq<Seq<char>>, key: Seq<char>)
    ensures
        key_slot(all, key) <= all.len(),
        key_slot(all, key) < all.len() ==> all[key_slot(all, key) as int] == key || before(
            key,
            all[key_slot(all, key) as int],
        ),
        forall|i: int|
            0 <= i < key_slot(all, key) ==> #[trigger] all[i] != key && !before(key, all[i]),
    decreases all.len(),
{
    if all.len() > 0 && all[0] != key && !before(key, all[0]) {
        lemma_key_slot(all.skip(1), key);
        assert forall|i: int| 0 <= i < key_slot(all, key) implies #[trigger] all[i] != key
            && !before(key, all[i]) by {
            if i > 0 {
                assert(all[i] == all.skip(1)[i - 1]);
            }
        }
    }
}

/// In ordered entries, an entry is what `lookup` finds under its key.
pub proof fn lemma_lookup_at<V>(entries: Seq<(Seq<char>, V)>, i: int)
    requires
        in_order(entries),
        0 <= i < entries.len(),
    ensures
        lookup(entries, entries[i].0) == Some(entries[i].1),
        key_index(keys(entries), entries[i].0) == i,
{
    let key = entries[i].0;
    lemma_key_index(keys(entries), key);
    let j = key_index(keys(entries), key) as int;
    if j < i {
        assert(keys(entries)[j] == entries[j].0);
        lemma_before_irreflexive(key);
    } else if j > i {
        assert(keys(entries)[i] == key);
    }
}

/// A key that `lookup` finds stands in the entries.
pub proof fn lemma_lookup_index<V>(entries: Seq<(Seq<char>, V)>, key: Seq<char>)
    ensures
        has_key(entries, key) ==> (exists|i: int|
            0 <= i < entries.len() && (#[trigger] entries[i]).0 == key && lookup(entries, key)
                == Some(entries[i].1)),
        (exists|i: int| 0 <= i < entries.len() && (#[trigger] entries[i]).0 == key) ==> has_key(
            entries,
            key,
        ),
{
    lemma_key_index(keys(entries), key);
    let j = key_index(keys(entries), key) as int;
    if has_key(entries, key) {
        assert(keys(entries)[j] == entries[j].0);
    }
    if exists|i: int| 0 <= i < entries.len() && (#[trigger] entries[i]).0 == key {
        let i = choose|i: int| 0 <= i < entries.len() && (#[trigger] entries[i]).0 == key;
        assert(keys(entries)[i] == key);
    }
}

/// Putting a value under a key keeps the order.
pub proof fn lemma_put_in_order<V>(entries: Seq<(Seq<char>, V)>, key: Seq<char>, value: V)
    requires
        in_order(entries),
    ensures
        in_order(put(entries, key, value)),
{
    let all = keys(entries);
    lemma_key_slot(all, key);
    let n = key_slot(all, key) as int;
    let after = put(entries, key, value);
    if !(n < entries.len() && entries[n].0 == key) {
        assert forall|i: int, j: int| 0 <= i < j < after.len() implies before(
            (#[trigger] after[i]).0,
            (#[trigger] after[j]).0,
        ) by {
            if i < n && j == n {
                assert(all[i] == entries[i].0);
                lemma_before_total(entries[i].0, key);
            } else if i == n && j > n {
                assert(all[n] == entries[n].0);
                if j > n + 1 {
                    lemma_before_transitive(key, entries[n].0, entries[j - 1].0);
                }
            }
        }
    } else {
        assert forall|i: int, j: int| 0 <= i < j < after.len() implies before(
            (#[trigger] after[i]).0,
            (#[trigger] after[j]).0,
        ) by {
            assert(after[i].0 == entries[i].0);
            assert(after[j].0 == entries[j].0);
        }
    }
}

/// A key after all others is put behind them.
pub proof fn lemma_put_last<V>(entries: Seq<(Seq<char>, V)>, key: Seq<char>, value: V)
    requires
        forall|i: int| 0 <= i < entries.len() ==> before((#[trigger] entries[i]).0, key),
    ensures
        put(entries, key, value) == entries.push((key, value)),
{
    let all = keys(entries);
    lemma_key_slot(all, key);
    let n = key_slot(all, key) as int;
    if n < entries.len() {
        assert(all[n] == entries[n].0);
        lemma_before_irreflexive(key);
        if before(key, entries[n].0) {
            lemma_before_transitive(key, entries[n].0, key);
        }
    }
    assert(entries.insert(n, (key, value)) =~= entries.push((key, value)));
}

/// Putting a value under a key makes it what stands there, and leaves what stands
/// under every other key.
pub proof fn lemma_put_lookup<V>(
    entries: Seq<(Seq<char>, V)>,
    key: Seq<char>,
    value: V,
    other: Seq<char>,
)
    requires
        in_order(entries),
    ensures
        lookup(put(entries, key, value), other) == if other == key {
            Some(value)
        } else {
            lookup(entries, other)
        },
{
    let all = keys(entries);
    let n = key_slot(all, key) as int;
    let after = put(entries, key, value);
    lemma_key_slot(all, key);
    lemma_put_in_order(entries, key, value);
    lemma_lookup_index(entries, other);
    lemma_lookup_index(after, other);
    if other == key {
        assert(after[n] == (key, value));
        lemma_lookup_at(after, n);
    } else if has_key(entries, other) {
        let i = choose|i: int|
            0 <= i < entries.len() && (#[trigger] entries[i]).0 == other && lookup(entries, other)
                == Some(entries[i].1);
        if n < entries.len() && entries[n].0 == key {
            assert(after[i] == entries[i]);
            lemma_lookup_at(after, i);
        } else if i < n {
            assert(after[i] == entries[i]);
            lemma_lookup_at(after, i);
        } else {
            assert(after[i + 1] == entries[i]);
            lemma_lookup_at(after, i + 1);
        }
    } else if has_key(after, other) {
        let i = choose|i: int|
            0 <= i < after.len() && (#[trigger] after[i]).0 == other && lookup(after, other)
                == Some(after[i].1);
        if n < entries.len() && entries[n].0 == key {
            assert(entries[i].0 == other);
        } else if i < n {
            assert(entries[i].0 == other);
        } else {
            assert(entries[i - 1].0 == other);
        }
    }
}

/// Taking a key out that is not there changes nothing.
pub proof fn lemma_without_nothing<V>(entries: Seq<(Seq<char>, V)>, key: Seq<char>)
    requires
        !has_key(entries, key),
    ensures
        without(entries, key) == entries,
{
    lemma_key_index(keys(entries), key);
}

/// Taking a key out keeps the order.
pub proof fn lemma_without_in_order<V>(entries: Seq<(Seq<char>, V)>, key: Seq<char>)
    requires
        in_order(entries),
    ensures
        in_order(without(entries, key)),
{
    let n = key_index(keys(entries), key) as int;
    let after = without(entries, key);
    assert forall|i: int, j: int| 0 <= i < j < after.len() implies before(
        (#[trigger] after[i]).0,
        (#[trigger] after[j]).0,
    ) by {
        if n < entries.len() {
            let a = if i < n { i } else { i + 1 };
            let b = if j < n { j } else { j + 1 };
            assert(after[i] == entries[a]);
            assert(after[j] == entries[b]);
        }
    }
}

/// Taking a key out leaves nothing under it, and what stands under every other key.
pub proof fn lemma_without_lookup<V>(
    entries: Seq<(Seq<char>, V)>,
    key: Seq<char>,
    other: Seq<char>,
)
    requires
        in_order(entries),
    ensures
        lookup(without(entries, key), other) == if other == key {
            None
        } else {
            lookup(entries, other)
        },
{
    let n = key_index(keys(entries), key) as int;
    let after = without(entries, key);
    lemma_key_index(keys(entries), key);
    lemma_without_in_order(entries, key);
    lemma_lookup_index(entries, other);
    lemma_lookup_index(after, other);
    if n < entries.len() {
        assert(keys(entries)[n] == entries[n].0);
        if other == key {
            if has_key(after, other) {
                let i = choose|i: int|
                    0 <= i < after.len() && (#[trigger] after[i]).0 == other && lookup(after, other)
                        == Some(after[i].1);
                let a = if i < n { i } else { i + 1 };
                assert(after[i] == entries[a]);
                lemma_lookup_at(entries, a);
                lemma_lookup_at(entries, n);
            }
        } else if has_key(entries, other) {
            let i = choose|i: int|
                0 <= i < entries.len() && (#[trigger] entries[i]).0 == other && lookup(
                    entries,
                    other,
                ) == Some(entries[i].1);
            let b = if i < n { i } else { i - 1 };
            assert(after[b] == entries[i]);
            lemma_lookup_at(after, b);
        } else if has_key(after, other) {
            let i = choose|i: int|
                0 <= i < after.len() && (#[trigger] after[i]).0 == other && lookup(after, other)
                    == Some(after[i].1);
            let a = if i < n { i } else { i + 1 };
            assert(entries[a].0 == other);
        }
    }
}

/// Changing a value under a key that is not there changes nothing.
pub proof fn lemma_changed_nothing<V>(entries: Seq<(Seq<char>, V)>, key: Seq<char>, value: V)
    ensures
        !has_key(entries, key) ==> changed(entries, key, value) == entries,
{
    lemma_key_index(keys(entries), key);
}

/// Changing a value keeps the keys.
pub proof fn lemma_changed_keys<V>(entries: Seq<(Seq<char>, V)>, key: Seq<char>, value: V)
    ensures
        keys(changed(entries, key, value)) == keys(entries),
        changed(entries, key, value).len() == entries.len(),
        in_order(entries) ==> in_order(changed(entries, key, value)),
{
    let after = changed(entries, key, value);
    assert(keys(after) =~= keys(entries));
    if in_order(entries) {
        assert forall|i: int, j: int| 0 <= i < j < after.len() implies before(
            (#[trigger] after[i]).0,
            (#[trigger] after[j]).0,
        ) by {
            assert(after[i].0 == entries[i].0);
            assert(after[j].0 == entries[j].0);
        }
    }
}

/// Changing the value under a key makes it what stands there, and leaves what stands
/// under every other key.
pub proof fn lemma_changed_lookup<V>(
    entries: Seq<(Seq<char>, V)>,
    key: Seq<char>,
    value: V,
    other: Seq<char>,
)
    ensures
        has_key(changed(entries, key, value), other) == has_key(entries, other),
        lookup(changed(entries, key, value), other) == if other == key && has_key(entries, key) {
            Some(value)
        } else {
            lookup(entries, other)
        },
{
    lemma_changed_keys(entries, key, value);
    lemma_key_index(keys(entries), key);
    lemma_key_index(keys(entries), other);
    let n = key_index(keys(entries), key) as int;
    let m = key_index(keys(entries), other) as int;
    if n < entries.len() && m < entries.len() {
        assert(keys(entries)[n] == entries[n].0);
        assert(keys(entries)[m] == entries[m].0);
    }
}

/// The keys of a list of entries.
pub open spec fn keys_of<T>(entries: Seq<(String, T)>) -> Seq<Seq<char>> {
    Seq::new(entries.len(), |i: int| entries[i].0@)
}

/// The index of the first entry under `key`, or the length if there is none.
pub fn find_key<T>(entries: &Vec<(String, T)>, key: &str) -> (n: usize)
    ensures
        n == key_index(keys_of(entries@), key@),
        n <= entries.len(),
        n < entries.len() ==> entries@[n as int].0@ == key@,
{
    let ghost all = keys_of(entries@);
    let mut i: usize = 0;
    proof {
        assert(all.skip(0) =~= all);
    }
    while i < entries.len() && !same(entries[i].0.as_str(), key)
        invariant
            i <= entries.len(),
            all == keys_of(entries@),
            key_index(all, key@) == i + key_index(all.skip(i as int), key@),
        decreases entries.len() - i,
    {
        proof {
            assert(all.skip(i as int).skip(1) =~= all.skip(i + 1));
        }
        i = i + 1;
    }
    i
}

/// The index at which `key` stands or belongs.
pub fn find_slot<T>(entries: &Vec<(String, T)>, key: &str) -> (n: usize)
    ensures
        n == key_slot(keys_of(entries@), key@),
        n <= entries.len(),
{
    let ghost all = keys_of(entries@);
    let mut i: usize = 0;
    proof {
        assert(all.skip(0) =~= all);
    }
    while i < entries.len() && !same(entries[i].0.as_str(), key) && !is_before(
        key,
        entries[i].0.as_str(),
    )
        invariant
            i <= entries.len(),
            all == keys_of(entries@),
            key_slot(all, key@) == i + key_slot(all.skip(i as int), key@),
        decreases entries.len() - i,
    {
        proof {
            assert(all.skip(i as int).skip(1) =~= all.skip(i + 1));
        }
        i = i + 1;
    }
    i
}

/// Puts `value` under `key`: in place of the value that stands there, or where the
/// key belongs.
pub fn put_entry<T>(entries: &mut Vec<(String, T)>, key: String, value: T)
    ensures
        ({
            let n = key_slot(keys_of(old(entries)@), key@) as int;
            final(entries)@ == if n < old(entries)@.len() && old(entries)@[n].0@ == key@ {
                old(entries)@.update(n, (key, value))
            } else {
                old(entries)@.insert(n, (key, value))
            }
        }),
{
    let n: usize = find_slot(entries, key.as_str());
    if n < entries.len() && same(entries[n].0.as_str(), key.as_str()) {
        entries[n] = (key, value);
    } else {
        entries.insert(n, (key, value));
    }
}

/// An ordered map from text, kept as a list of entries.
#[derive(Debug)]
pub struct Table<T> {
    pub entries: Vec<(String, T)>,
}

impl<T: View> View for Table<T> {
    type V = Seq<(Seq<char>, T::V)>;

    open spec fn view(&self) -> Seq<(Seq<char>, T::V)> {
        Seq::new(self.entries@.len(), |i: int| (self.entries@[i].0@, self.entries@[i].1@))
    }
}

impl<T: View> Table<T> {
    /// A table without entries.
    pub fn new() -> (r: Self)
        ensures
            r@ == Seq::<(Seq<char>, T::V)>::empty(),
    {
        let r: Self = Table { entries: Vec::new() };
        proof {
            assert(r@ =~= Seq::<(Seq<char>, T::V)>::empty());
        }
        r
    }

    /// The keys of the table are those of its entries.
    pub proof fn lemma_keys(&self)
        ensures
            keys(self@) == keys_of(self.entries@),
    {
        assert(keys(self@) =~= keys_of(self.entries@));
    }

    /// The number of entries.
    pub fn len(&self) -> (n: usize)
        ensures
            n == self@.len(),
    {
        self.entries.len()
    }

    /// Whether some entry has the key `key`.
    pub fn contains_key(&self, key: &str) -> (r: bool)
        ensures
            r == has_key(self@, key@),
    {
        proof {
            self.lemma_keys();
        }
        find_key(&self.entries, key) < self.entries.len()
    }

    /// The value under `key`.
    pub fn get(&self, key: &str) -> (r: Option<&T>)
        ensures
            r is Some <==> has_key(self@, key@),
            r is Some ==> lookup(self@, key@) == Some(r->0@),
    {
        proof {
            self.lemma_keys();
        }
        let i: usize = find_key(&self.entries, key);
        if i < self.entries.len() {
            Some(&self.entries[i].1)
        } else {
            None
        }
    }

    /// Puts `value` under `key`.
    pub fn insert(&mut self, key: String, value: T)
        ensures
            final(self)@ == put(old(self)@, key@, value@),
    {
        proof {
            self.lemma_keys();
            lemma_key_slot(keys(self@), key@);
        }
        let ghost was = self@;
        put_entry(&mut self.entries, key, value);
        proof {
            assert(self@ =~= put(was, key@, value@));
        }
    }

    /// The value under `key`, to be changed in place.
    pub fn get_mut(&mut self, key: &str) -> (r: Option<&mut T>)
        ensures
            r is Some <==> has_key(old(self)@, key@),
            r matches Some(value) ==> lookup(old(self)@, key@) == Some(value@) && final(self)@
                == changed(old(self)@, key@, final(value)@),
            r is None ==> final(self)@ == old(self)@,
    {
        proof {
            self.lemma_keys();
        }
        let i: usize = find_key(&self.entries, key);
        if i < self.entries.len() {
            Some(&mut self.entries[i].1)
        } else {
            None
        }
    }

    /// Takes the entry under `key` out and returns its value.
    pub fn remove(&mut self, key: &str) -> (r: Option<T>)
        ensures
            final(self)@ == without(old(self)@, key@),
            r is Some <==> has_key(old(self)@, key@),
            r is Some ==> lookup(old(self)@, key@) == Some(r->0@),
    {
        proof {
            self.lemma_keys();
        }
        let ghost was = self@;
        let i: usize = find_key(&self.entries, key);
        if i < self.entries.len() {
            let (_k, v) = self.entries.remove(i);
            proof {
                assert(self@ =~= without(was, key@));
            }
            Some(v)
        } else {
            None
        }
    }
}

} // verus!
