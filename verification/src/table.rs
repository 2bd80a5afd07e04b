//! Name-keyed association tables.
//!
//! The configuration maps (interfaces by name, shapes by name) are held as
//! vectors of `(name, value)` pairs.  Lookup takes the first entry whose key
//! matches, so the specification is exact even when a key repeats.

use crate::text::str_eq;
use vstd::prelude::*;

verus! {

/// The value stored under `key`, taking the first entry whose key matches;
/// `None` when no entry matches.
pub open spec fn find_entry<V>(entries: Seq<(Seq<char>, V)>, key: Seq<char>) -> Option<V>
    decreases entries.len(),
{
    if entries.len() == 0 {
        None
    } else if entries[0].0 == key {
        Some(entries[0].1)
    } else {
        find_entry(entries.drop_first(), key)
    }
}

/// The keys of an association table, in table order.
pub open spec fn entry_keys<V>(entries: Seq<(Seq<char>, V)>) -> Seq<Seq<char>> {
    entries.map_values(|e: (Seq<char>, V)| e.0)
}

proof fn lemma_find_entry_skip_step<V>(entries: Seq<(Seq<char>, V)>, key: Seq<char>, i: int)
    requires
        0 <= i < entries.len(),
        entries[i].0 != key,
    ensures
        find_entry(entries.skip(i), key) == find_entry(entries.skip(i + 1), key),
{
    assert(entries.skip(i)[0] == entries[i]);
    assert(entries.skip(i).drop_first() =~= entries.skip(i + 1));
}

/// Looks `key` up in `entries`, returning a reference to the first value
/// stored under it.
pub fn find_pair<'a, V: DeepView>(entries: &'a Vec<(String, V)>, key: &str) -> (r: Option<
    &'a V,
>)
    ensures
        r.deep_view() == find_entry(entries.deep_view(), key@),
{
    let ghost m = entries.deep_view();
    proof {
        assert(m.skip(0) =~= m);
    }
    let mut i: usize = 0;
    while i < entries.len()
        invariant
            m == entries.deep_view(),
            m.len() == entries@.len(),
            0 <= i <= entries@.len(),
            find_entry(m, key@) == find_entry(m.skip(i as int), key@),
        decreases entries@.len() - i,
    {
        let pair = &entries[i];
        if str_eq(pair.0.as_str(), key) {
            proof {
                assert(m.skip(i as int)[0] == m[i as int]);
            }
            return Some(&pair.1);
        }
        proof {
            lemma_find_entry_skip_step(m, key@, i as int);
        }
        i += 1;
    }
    proof {
        assert(m.skip(m.len() as int) =~= Seq::<(Seq<char>, V::V)>::empty());
    }
    None
}

/// Collects the keys of `entries`, in table order.
pub fn collect_keys<'a, V: DeepView>(entries: &'a Vec<(String, V)>) -> (r: Vec<&'a String>)
    ensures
        r.deep_view() == entry_keys(entries.deep_view()),
{
    let ghost m = entries.deep_view();
    let mut keys: Vec<&'a String> = Vec::new();
    let mut i: usize = 0;
    while i < entries.len()
        invariant
            m == entries.deep_view(),
            m.len() == entries@.len(),
            0 <= i <= entries@.len(),
            keys@.len() == i,
            forall|j: int| 0 <= j < i ==> keys@[j].deep_view() == m[j].0,
        decreases entries@.len() - i,
    {
        keys.push(&entries[i].0);
        proof {
            assert(keys@[i as int].deep_view() == m[i as int].0);
        }
        i += 1;
    }
    proof {
        assert forall|j: int| 0 <= j < m.len() implies keys.deep_view()[j] == entry_keys(m)[j] by {
            assert(keys.deep_view()[j] == keys@[j].deep_view());
        }
        assert(keys.deep_view() =~= entry_keys(m));
    }
    keys
}

} // verus!
