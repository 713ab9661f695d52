//! Tables keyed by names: each name occurs at most once, and inserting a
//! name that is present replaces its value in place.
use vstd::prelude::*;

use crate::text::chars_equal;

verus! {

/// The position of the first key equal to `key`.
pub open spec fn find_key(keys: Seq<Seq<char>>, key: Seq<char>) -> Option<int>
    decreases keys.len(),
{
    if keys.len() == 0 {
        None
    } else {
        match find_key(keys.drop_last(), key) {
            Some(i) => Some(i),
            None => if keys.last() == key {
                Some(keys.len() - 1)
            } else {
                None
            },
        }
    }
}

pub open spec fn keys_of<V>(t: Seq<(Seq<char>, V)>) -> Seq<Seq<char>> {
    t.map_values(|e: (Seq<char>, V)| e.0)
}

/// The value stored under `key`.
pub open spec fn lookup<V>(t: Seq<(Seq<char>, V)>, key: Seq<char>) -> Option<V> {
    match find_key(keys_of(t), key) {
        Some(i) => Some(t[i].1),
        None => None,
    }
}

/// The table with `v` stored under `key`: in place when the key is present,
/// at the end otherwise.
pub open spec fn inserted<V>(t: Seq<(Seq<char>, V)>, key: Seq<char>, v: V) -> Seq<(Seq<char>, V)> {
    match find_key(keys_of(t), key) {
        Some(i) => t.update(i, (key, v)),
        None => t.push((key, v)),
    }
}

/// Whether no key occurs twice.
pub open spec fn keys_unique(keys: Seq<Seq<char>>) -> bool {
    forall|i: int, j: int| 0 <= i < j < keys.len() ==> keys[i] != keys[j]
}

/// A found position holds the key, and no earlier position does.
pub proof fn lemma_find_key(keys: Seq<Seq<char>>, key: Seq<char>)
    ensures
        find_key(keys, key) matches Some(i) ==> 0 <= i < keys.len() && keys[i] == key && forall|k: int|
            0 <= k < i ==> keys[k] != key,
        find_key(keys, key) is None ==> forall|k: int| 0 <= k < keys.len() ==> keys[k] != key,
    decreases keys.len(),
{
    if keys.len() > 0 {
        let front = keys.drop_last();
        lemma_find_key(front, key);
        assert forall|k: int| 0 <= k < front.len() implies front[k] == keys[k] by {}
        match find_key(front, key) {
            Some(i) => {
                assert(find_key(keys, key) == Some(i));
                assert forall|k: int| 0 <= k < i implies keys[k] != key by {
                    assert(front[k] == keys[k]);
                }
            },
            None => {
                assert forall|k: int| 0 <= k < keys.len() - 1 implies keys[k] != key by {
                    assert(front[k] == keys[k]);
                }
            },
        }
    }
}

/// The first position of a key is the one that holds it with no earlier one.
pub proof fn lemma_find_key_at(keys: Seq<Seq<char>>, key: Seq<char>, i: int)
    requires
        0 <= i < keys.len(),
        keys[i] == key,
        forall|k: int| 0 <= k < i ==> keys[k] != key,
    ensures
        find_key(keys, key) == Some(i),
    decreases keys.len(),
{
    if i < keys.len() - 1 {
        lemma_find_key_at(keys.drop_last(), key, i);
    } else {
        lemma_find_key(keys.drop_last(), key);
    }
}

/// Storing under a key keeps every name at most once in the table, and
/// afterwards the key reads back the stored value.
pub proof fn lemma_inserted_keeps_keys_unique<V>(t: Seq<(Seq<char>, V)>, key: Seq<char>, v: V)
    requires
        keys_unique(keys_of(t)),
    ensures
        keys_unique(keys_of(inserted(t, key, v))),
        lookup(inserted(t, key, v), key) == Some(v),
{
    let keys = keys_of(t);
    let t2 = inserted(t, key, v);
    let keys2 = keys_of(t2);
    lemma_find_key(keys, key);
    match find_key(keys, key) {
        Some(i) => {
            assert forall|k: int| 0 <= k < keys2.len() implies keys2[k] == keys[k] by {}
            assert(keys2 =~= keys);
            lemma_find_key_at(keys2, key, i);
        },
        None => {
            assert forall|k: int| 0 <= k < keys.len() implies keys2[k] == keys[k] by {}
            assert(keys2[keys.len() as int] == key);
            lemma_find_key_at(keys2, key, keys.len() as int);
        },
    }
}

/// The first position where `key` is stored.
pub fn find_entry<V>(t: &Vec<(Vec<char>, V)>, key: &[char]) -> (r: Option<usize>)
    ensures
        r matches Some(i) ==> find_key(t@.map_values(|e: (Vec<char>, V)| e.0@), key@) == Some(i as int) && i < t@.len()
            && t@[i as int].0@ == key@,
        r is None ==> find_key(t@.map_values(|e: (Vec<char>, V)| e.0@), key@) is None,
{
    let ghost keys = t@.map_values(|e: (Vec<char>, V)| e.0@);
    let mut i: usize = 0;
    while i < t.len()
        invariant
            i <= t@.len(),
            keys == t@.map_values(|e: (Vec<char>, V)| e.0@),
            forall|k: int| 0 <= k < i ==> keys[k] != key@,
        decreases t@.len() - i,
    {
        if chars_equal(t[i].0.as_slice(), key) {
            proof {
                lemma_find_key_at(keys, key@, i as int);
            }
            return Some(i);
        }
        i += 1;
    }
    proof {
        lemma_find_key(keys, key@);
        if let Some(j) = find_key(keys, key@) {
            assert(keys[j] == key@);
        }
    }
    None
}

} // verus!
