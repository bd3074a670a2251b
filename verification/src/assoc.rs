//! Small maps keyed by text, kept as lists of entries. A key is looked up by
//! its first entry; putting a key replaces that entry or adds one at the
//! end, so a list that holds no key twice stays that way.

use vstd::prelude::*;

verus! {

/// The entries of a list, as pairs of key and value.
pub type Entries<T> = Seq<(Seq<char>, T)>;

/// The views of the entries of a list.
pub open spec fn entry_views<V: View>(entries: Seq<(String, V)>) -> Entries<V::V> {
    Seq::new(entries.len(), |i: int| (entries[i].0@, entries[i].1@))
}

/// The position of the first entry with the key `key`.
pub open spec fn index_of<T>(entries: Entries<T>, key: Seq<char>) -> Option<int>
    decreases entries.len(),
{
    if entries.len() == 0 {
        None
    } else if entries.first().0 == key {
        Some(0)
    } else {
        match index_of(entries.drop_first(), key) {
            Some(i) => Some(i + 1),
            None => None,
        }
    }
}

/// The value of the first entry with the key `key`.
pub open spec fn get<T>(entries: Entries<T>, key: Seq<char>) -> Option<T> {
    match index_of(entries, key) {
        Some(i) => Some(entries[i].1),
        None => None,
    }
}

/// The list with `value` under `key`: in the place of the key's first entry
/// where it has one, and at the end otherwise.
pub open spec fn put<T>(entries: Entries<T>, key: Seq<char>, value: T) -> Entries<T> {
    match index_of(entries, key) {
        Some(i) => entries.update(i, (key, value)),
        None => entries.push((key, value)),
    }
}

/// The keys of the entries, in their order.
pub open spec fn keys<T>(entries: Entries<T>) -> Seq<Seq<char>> {
    Seq::new(entries.len(), |i: int| entries[i].0)
}

/// No key stands in the list twice.
pub open spec fn unique_keys<T>(entries: Entries<T>) -> bool {
    forall|i: int, j: int|
        0 <= i < j < entries.len() ==> (#[trigger] entries[i]).0 != (#[trigger] entries[j]).0
}

/// `index_of` finds the first entry with the key, and finds none only where
/// there is none.
pub proof fn lemma_index_of<T>(entries: Entries<T>, key: Seq<char>)
    ensures
        match index_of(entries, key) {
            Some(i) => 0 <= i < entries.len() && entries[i].0 == key && forall|j: int|
                0 <= j < i ==> (#[trigger] entries[j]).0 != key,
            None => forall|j: int| 0 <= j < entries.len() ==> (#[trigger] entries[j]).0 != key,
        },
    decreases entries.len(),
{
    if entries.len() > 0 && entries.first().0 != key {
        let rest = entries.drop_first();
        lemma_index_of(rest, key);
        match index_of(rest, key) {
            Some(i) => {
                assert(entries[i + 1] == rest[i]);
                assert forall|j: int| 0 <= j < i + 1 implies (#[trigger] entries[j]).0 != key by {
                    if j > 0 {
                        assert(entries[j] == rest[j - 1]);
                    }
                }
            },
            None => {
                assert forall|j: int| 0 <= j < entries.len() implies (#[trigger] entries[j]).0
                    != key by {
                    if j > 0 {
                        assert(entries[j] == rest[j - 1]);
                    }
                }
            },
        }
    }
}

/// A key whose first entry stands at `i` is found there.
pub proof fn lemma_index_of_is<T>(entries: Entries<T>, key: Seq<char>, i: int)
    requires
        0 <= i < entries.len(),
        entries[i].0 == key,
        forall|j: int| 0 <= j < i ==> (#[trigger] entries[j]).0 != key,
    ensures
        index_of(entries, key) == Some(i),
{
    lemma_index_of(entries, key);
}

/// A key that no entry has is not found.
pub proof fn lemma_index_of_none<T>(entries: Entries<T>, key: Seq<char>)
    requires
        forall|j: int| 0 <= j < entries.len() ==> (#[trigger] entries[j]).0 != key,
    ensures
        index_of(entries, key) is None,
{
    lemma_index_of(entries, key);
}

/// A key that stands at `i`, and nowhere before, holds the value at `i`.
pub proof fn lemma_get_at<T>(entries: Entries<T>, i: int, key: Seq<char>)
    requires
        0 <= i < entries.len(),
        entries[i].0 == key,
        forall|j: int| 0 <= j < i ==> (#[trigger] entries[j]).0 != key,
    ensures
        get(entries, key) == Some(entries[i].1),
{
    lemma_index_of(entries, key);
}

/// A key that the front part does not hold is looked up in the rest.
pub proof fn lemma_get_skips<T>(front: Entries<T>, rest: Entries<T>, key: Seq<char>)
    requires
        forall|j: int| 0 <= j < front.len() ==> (#[trigger] front[j]).0 != key,
    ensures
        get(front + rest, key) == get(rest, key),
{
    let all = front + rest;
    lemma_index_of(rest, key);
    match index_of(rest, key) {
        Some(i) => {
            assert(all[front.len() + i] == rest[i]);
            assert forall|j: int| 0 <= j < front.len() + i implies (#[trigger] all[j]).0
                != key by {
                if j < front.len() {
                    assert(all[j] == front[j]);
                } else {
                    assert(all[j] == rest[j - front.len()]);
                }
            }
            lemma_index_of_is(all, key, front.len() + i);
        },
        None => {
            assert forall|j: int| 0 <= j < all.len() implies (#[trigger] all[j]).0 != key by {
                if j < front.len() {
                    assert(all[j] == front[j]);
                } else {
                    assert(all[j] == rest[j - front.len()]);
                }
            }
            lemma_index_of_none(all, key);
        },
    }
}

/// A key that the front part holds is found there, whatever follows.
pub proof fn lemma_get_front<T>(front: Entries<T>, rest: Entries<T>, key: Seq<char>)
    requires
        get(front, key) is Some,
    ensures
        get(front + rest, key) == get(front, key),
{
    let all = front + rest;
    lemma_index_of(front, key);
    let i = index_of(front, key)->0;
    assert(all[i] == front[i]);
    assert forall|j: int| 0 <= j < i implies (#[trigger] all[j]).0 != key by {
        assert(all[j] == front[j]);
    }
    lemma_index_of_is(all, key, i);
}

/// After putting a value under a key, that key holds the value and every
/// other key holds what it held before.
pub proof fn lemma_get_put<T>(entries: Entries<T>, key: Seq<char>, value: T, other: Seq<char>)
    ensures
        get(put(entries, key, value), other) == (if other == key {
            Some(value)
        } else {
            get(entries, other)
        }),
{
    let after = put(entries, key, value);
    lemma_index_of(entries, key);
    lemma_index_of(entries, other);
    match index_of(entries, key) {
        Some(i) => {
            if other == key {
                lemma_index_of_is(after, other, i);
            } else {
                match index_of(entries, other) {
                    Some(k) => {
                        lemma_index_of_is(after, other, k);
                    },
                    None => {
                        lemma_index_of_none(after, other);
                    },
                }
            }
        },
        None => {
            if other == key {
                lemma_index_of_is(after, other, entries.len() as int);
            } else {
                match index_of(entries, other) {
                    Some(k) => {
                        lemma_index_of_is(after, other, k);
                    },
                    None => {
                        lemma_index_of_none(after, other);
                    },
                }
            }
        },
    }
}

/// Putting a key into a list that holds no key twice leaves it so.
pub proof fn lemma_put_keeps_unique<T>(entries: Entries<T>, key: Seq<char>, value: T)
    requires
        unique_keys(entries),
    ensures
        unique_keys(put(entries, key, value)),
{
    let after = put(entries, key, value);
    lemma_index_of(entries, key);
    assert forall|i: int, j: int| 0 <= i < j < after.len() implies (#[trigger] after[i]).0 != (
    #[trigger] after[j]).0 by {
        match index_of(entries, key) {
            Some(k) => {
                assert(after[i].0 == entries[i].0);
                assert(after[j].0 == entries[j].0);
            },
            None => {
                if j < entries.len() {
                    assert(after[i] == entries[i]);
                    assert(after[j] == entries[j]);
                } else {
                    assert(after[i] == entries[i]);
                }
            },
        }
    }
}

/// The value under `key`, where the list has one.
pub fn find_entry<'a, V: View>(entries: &'a Vec<(String, V)>, key: &str) -> (r: Option<&'a V>)
    ensures
        match r {
            Some(v) => get(entry_views(entries@), key@) == Some(v@),
            None => get(entry_views(entries@), key@) is None,
        },
{
    let wanted = key.to_owned();
    let ghost all = entry_views(entries@);
    let mut i: usize = 0;
    while i < entries.len()
        invariant
            i <= entries.len(),
            wanted@ == key@,
            all == entry_views(entries@),
            forall|j: int| 0 <= j < i ==> (#[trigger] all[j]).0 != key@,
        decreases entries.len() - i,
    {
        if entries[i].0 == wanted {
            proof {
                lemma_index_of_is(all, key@, i as int);
            }
            return Some(&entries[i].1);
        }
        i += 1;
    }
    proof {
        lemma_index_of_none(all, key@);
    }
    None
}

/// Puts `value` under `key`, as [`put`] defines it.
pub fn put_entry<V: View>(entries: &mut Vec<(String, V)>, key: &str, value: V)
    ensures
        entry_views(final(entries)@) == put(entry_views(old(entries)@), key@, value@),
{
    let wanted = key.to_owned();
    let ghost all = entry_views(entries@);
    let mut i: usize = 0;
    while i < entries.len()
        invariant
            i <= entries.len(),
            wanted@ == key@,
            entries@ == old(entries)@,
            all == entry_views(entries@),
            forall|j: int| 0 <= j < i ==> (#[trigger] all[j]).0 != key@,
        decreases entries.len() - i,
    {
        if entries[i].0 == wanted {
            proof {
                lemma_index_of_is(all, key@, i as int);
            }
            entries.set(i, (wanted, value));
            assert(entry_views(entries@) =~= all.update(i as int, (key@, value@)));
            return ;
        }
        i += 1;
    }
    proof {
        lemma_index_of_none(all, key@);
    }
    entries.push((wanted, value));
    assert(entry_views(entries@) =~= all.push((key@, value@)));
}

} // verus!
