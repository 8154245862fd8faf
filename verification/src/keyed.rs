//! Lists of entries keyed by a name, each name at most once: the form in
//! which the library keeps what the configuration and plugins hold as maps.
use crate::text::str_eq;
use vstd::prelude::*;

verus! {

/// The keys of the entries, in order.
pub open spec fn keys_of<V>(entries: Seq<(String, V)>) -> Seq<Seq<char>> {
    Seq::new(entries.len(), |i: int| entries[i].0@)
}

/// A position at which the key `k` is kept.
pub open spec fn key_position<V>(entries: Seq<(String, V)>, k: Seq<char>) -> int {
    choose|i: int| 0 <= i < entries.len() && entries[i].0@ == k
}

/// The entries as a map from key to value.
pub open spec fn keyed_map<V>(entries: Seq<(String, V)>) -> Map<Seq<char>, V> {
    Map::new(
        |k: Seq<char>| exists|i: int| 0 <= i < entries.len() && entries[i].0@ == k,
        |k: Seq<char>| entries[key_position(entries, k)].1,
    )
}

/// The entry at `i` is what the map holds for its key, where no key occurs
/// twice.
pub proof fn lemma_keyed_lookup<V>(entries: Seq<(String, V)>, i: int)
    requires
        keys_of(entries).no_duplicates(),
        0 <= i < entries.len(),
    ensures
        keyed_map(entries).dom().contains(entries[i].0@),
        keyed_map(entries)[entries[i].0@] == entries[i].1,
{
    let k = entries[i].0@;
    let names = keys_of(entries);
    assert(names[i] == k);
    assert(exists|j: int| 0 <= j < entries.len() && entries[j].0@ == k);
    let w = key_position(entries, k);
    assert(names[w] == k);
    if w != i {
        assert(names[w] != names[i]);
    }
}

/// The position of the entry whose key is `k`.
pub fn keyed_position<V>(entries: &Vec<(String, V)>, k: &str) -> (r: Option<usize>)
    ensures
        r matches Some(i) ==> i < entries@.len() && entries@[i as int].0@ == k@,
        r is None ==> !keyed_map(entries@).dom().contains(k@),
{
    let mut i: usize = 0;
    while i < entries.len()
        invariant
            i <= entries@.len(),
            forall|j: int| 0 <= j < i ==> entries@[j].0@ != k@,
        decreases entries.len() - i,
    {
        if str_eq(entries[i].0.as_str(), k) {
            return Some(i);
        }
        i = i + 1;
    }
    None
}

/// The value kept under `k`, if any.
pub fn keyed_get<'a, V>(entries: &'a Vec<(String, V)>, k: &str) -> (r: Option<&'a V>)
    requires
        keys_of(entries@).no_duplicates(),
    ensures
        r is Some <==> keyed_map(entries@).dom().contains(k@),
        r matches Some(v) ==> *v == keyed_map(entries@)[k@],
{
    match keyed_position(entries, k) {
        Some(i) => {
            proof {
                lemma_keyed_lookup(entries@, i as int);
            }
            Some(&entries[i].1)
        },
        None => None,
    }
}

/// Keeps `v` under `k`, in place of what was kept there.
pub fn keyed_insert<V>(entries: &mut Vec<(String, V)>, k: String, v: V)
    requires
        keys_of(old(entries)@).no_duplicates(),
    ensures
        keys_of(final(entries)@).no_duplicates(),
        keyed_map(final(entries)@) == keyed_map(old(entries)@).insert(k@, v),
{
    let ghost before = entries@;
    let ghost key = k@;
    match keyed_position(entries, k.as_str()) {
        Some(i) => {
            entries.set(i, (k, v));
            proof {
                let after = entries@;
                assert(keys_of(after) =~= keys_of(before));
                let target = keyed_map(before).insert(key, v);
                assert forall|x: Seq<char>| #[trigger] keyed_map(after).dom().contains(x) <==> target.dom().contains(
                    x,
                ) by {
                    if x != key {
                        if exists|j: int| 0 <= j < before.len() && before[j].0@ == x {
                            let j = choose|j: int| 0 <= j < before.len() && before[j].0@ == x;
                            assert(after[j].0@ == x);
                        }
                        if exists|j: int| 0 <= j < after.len() && after[j].0@ == x {
                            let j = choose|j: int| 0 <= j < after.len() && after[j].0@ == x;
                            assert(before[j].0@ == x);
                        }
                    } else {
                        assert(after[i as int].0@ == x);
                    }
                }
                assert forall|x: Seq<char>| #[trigger] keyed_map(after).dom().contains(x) implies keyed_map(after)[x]
                    == target[x] by {
                    if x == key {
                        lemma_keyed_lookup(after, i as int);
                    } else {
                        let j = choose|j: int| 0 <= j < after.len() && after[j].0@ == x;
                        assert(j != i);
                        lemma_keyed_lookup(after, j);
                        assert(before[j] == after[j]);
                        lemma_keyed_lookup(before, j);
                    }
                }
                assert(keyed_map(after) =~= target);
            }
        },
        None => {
            entries.push((k, v));
            proof {
                let after = entries@;
                assert(keys_of(after) =~= keys_of(before).push(key));
                let target = keyed_map(before).insert(key, v);
                assert forall|x: Seq<char>| #[trigger] keyed_map(after).dom().contains(x) <==> target.dom().contains(
                    x,
                ) by {
                    if exists|j: int| 0 <= j < before.len() && before[j].0@ == x {
                        let j = choose|j: int| 0 <= j < before.len() && before[j].0@ == x;
                        assert(after[j].0@ == x);
                    }
                    if x == key {
                        assert(after[before.len() as int].0@ == x);
                    }
                }
                assert forall|x: Seq<char>| #[trigger] keyed_map(after).dom().contains(x) implies keyed_map(after)[x]
                    == target[x] by {
                    if x == key {
                        lemma_keyed_lookup(after, before.len() as int);
                    } else {
                        let j = choose|j: int| 0 <= j < after.len() && after[j].0@ == x;
                        assert(j < before.len());
                        lemma_keyed_lookup(after, j);
                        lemma_keyed_lookup(before, j);
                    }
                }
                assert(keyed_map(after) =~= target);
            }
        },
    }
}

} // verus!
