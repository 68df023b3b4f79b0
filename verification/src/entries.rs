//! Lists of `(name, value)` entries looked up by name: the members of a JSON
//! object and the query options of a reference.

use vstd::prelude::*;

use crate::text::str_eq;

verus! {

/// The value of the first entry named `key`, if any.
pub open spec fn entry_lookup<V>(entries: Seq<(String, V)>, key: Seq<char>) -> Option<V>
    decreases entries.len(),
{
    if entries.len() == 0 {
        None
    } else if entries[0].0@ == key {
        Some(entries[0].1)
    } else {
        entry_lookup(entries.drop_first(), key)
    }
}

/// No two entries share a name.
pub open spec fn names_distinct<V>(entries: Seq<(String, V)>) -> bool {
    forall|i: int, j: int|
        0 <= i < j < entries.len() ==> #[trigger] entries[i].0@ != #[trigger] entries[j].0@
}

/// Where some entry is named `key` and entries before `i` are not, the lookup
/// gives the value of the first one from `i` on.
pub proof fn lemma_entry_lookup_skip<V>(entries: Seq<(String, V)>, key: Seq<char>, i: int)
    requires
        0 <= i <= entries.len(),
        forall|k: int| 0 <= k < i ==> (#[trigger] entries[k]).0@ != key,
    ensures
        entry_lookup(entries, key) == entry_lookup(entries.skip(i), key),
    decreases i,
{
    if i > 0 {
        lemma_entry_lookup_skip(entries.drop_first(), key, i - 1);
        assert(entries.drop_first().skip(i - 1) =~= entries.skip(i));
    } else {
        assert(entries.skip(0) =~= entries);
    }
}

/// The lookup finds the entry at `i` when it is the first one named `key`.
pub proof fn lemma_entry_lookup_at<V>(entries: Seq<(String, V)>, key: Seq<char>, i: int)
    requires
        0 <= i < entries.len(),
        entries[i].0@ == key,
        forall|k: int| 0 <= k < i ==> (#[trigger] entries[k]).0@ != key,
    ensures
        entry_lookup(entries, key) == Some(entries[i].1),
{
    lemma_entry_lookup_skip(entries, key, i);
}

/// The lookup finds nothing when no entry is named `key`.
pub proof fn lemma_entry_lookup_absent<V>(entries: Seq<(String, V)>, key: Seq<char>)
    requires
        forall|k: int| 0 <= k < entries.len() ==> (#[trigger] entries[k]).0@ != key,
    ensures
        entry_lookup(entries, key) is None,
{
    lemma_entry_lookup_skip(entries, key, entries.len() as int);
}

/// With distinct names, the lookup gives the value of the entry named `key`.
pub proof fn lemma_entry_lookup_distinct<V>(entries: Seq<(String, V)>, key: Seq<char>, i: int)
    requires
        names_distinct(entries),
        0 <= i < entries.len(),
        entries[i].0@ == key,
    ensures
        entry_lookup(entries, key) == Some(entries[i].1),
{
    assert forall|k: int| 0 <= k < i implies (#[trigger] entries[k]).0@ != key by {
        assert(entries[k].0@ != entries[i].0@);
    }
    lemma_entry_lookup_at(entries, key, i);
}

/// The position of the first entry named `key`, if any.
pub fn find_entry<V>(entries: &Vec<(String, V)>, key: &str) -> (r: Option<usize>)
    ensures
        match r {
            Some(i) => i < entries@.len() && entries@[i as int].0@ == key@
                && entry_lookup(entries@, key@) == Some(entries@[i as int].1)
                && forall|k: int| 0 <= k < i ==> (#[trigger] entries@[k]).0@ != key@,
            None => entry_lookup(entries@, key@) is None,
        },
{
    let n = entries.len();
    let mut i: usize = 0;
    while i < n
        invariant
            i <= n,
            n == entries@.len(),
            forall|k: int| 0 <= k < i ==> (#[trigger] entries@[k]).0@ != key@,
        decreases n - i,
    {
        if str_eq(entries[i].0.as_str(), key) {
            proof {
                lemma_entry_lookup_at(entries@, key@, i as int);
            }
            return Some(i);
        }
        i = i + 1;
    }
    proof {
        lemma_entry_lookup_absent(entries@, key@);
    }
    None
}

/// The value of the first entry named `key`, if any.
pub fn entry_get<'a, V>(entries: &'a Vec<(String, V)>, key: &str) -> (r: Option<&'a V>)
    ensures
        match r {
            Some(v) => entry_lookup(entries@, key@) == Some(*v),
            None => entry_lookup(entries@, key@) is None,
        },
{
    match find_entry(entries, key) {
        Some(i) => Some(&entries[i].1),
        None => None,
    }
}

/// A lookup that finds nothing means that no entry carries the name.
pub proof fn lemma_entry_lookup_none<V>(entries: Seq<(String, V)>, key: Seq<char>)
    requires
        entry_lookup(entries, key) is None,
    ensures
        forall|k: int| 0 <= k < entries.len() ==> (#[trigger] entries[k]).0@ != key,
    decreases entries.len(),
{
    if entries.len() > 0 {
        lemma_entry_lookup_none(entries.drop_first(), key);
        assert forall|k: int| 0 <= k < entries.len() implies (#[trigger] entries[k]).0@ != key by {
            if k > 0 {
                assert(entries[k] == entries.drop_first()[k - 1]);
            }
        }
    }
}

/// Replacing an entry by one of the same name leaves the lookup of every other
/// name unchanged.
pub proof fn lemma_entry_lookup_update<V>(
    entries: Seq<(String, V)>,
    i: int,
    e: (String, V),
    key: Seq<char>,
)
    requires
        0 <= i < entries.len(),
        e.0@ == entries[i].0@,
        key != e.0@,
    ensures
        entry_lookup(entries.update(i, e), key) == entry_lookup(entries, key),
    decreases entries.len(),
{
    let u = entries.update(i, e);
    if i == 0 {
        assert(u.drop_first() =~= entries.drop_first());
    } else {
        assert(u.drop_first() =~= entries.drop_first().update(i - 1, e));
        lemma_entry_lookup_update(entries.drop_first(), i - 1, e, key);
    }
}

/// Adding an entry at the end leaves the lookup of every other name unchanged.
pub proof fn lemma_entry_lookup_push<V>(entries: Seq<(String, V)>, e: (String, V), key: Seq<char>)
    requires
        key != e.0@,
    ensures
        entry_lookup(entries.push(e), key) == entry_lookup(entries, key),
    decreases entries.len(),
{
    let p = entries.push(e);
    if entries.len() == 0 {
        assert(p.drop_first() =~= Seq::<(String, V)>::empty());
    } else {
        assert(p.drop_first() =~= entries.drop_first().push(e));
        lemma_entry_lookup_push(entries.drop_first(), e, key);
    }
}

/// Set the value of the entry named `key`, replacing the value it had, or add
/// the entry at the end where there was none.
pub fn entry_insert<V>(entries: &mut Vec<(String, V)>, key: String, value: V)
    ensures
        entry_lookup(final(entries)@, key@) == Some(value),
        forall|k: Seq<char>|
            k != key@ ==> #[trigger] entry_lookup(final(entries)@, k) == entry_lookup(
                old(entries)@,
                k,
            ),
        names_distinct(old(entries)@) ==> names_distinct(final(entries)@),
{
    let ghost before = entries@;
    let ghost name = key@;
    match find_entry(entries, key.as_str()) {
        Some(i) => {
            entries[i] = (key, value);
            proof {
                let e = (key, value);
                assert(entries@ =~= before.update(i as int, e));
                assert forall|k: int| 0 <= k < i implies (#[trigger] entries@[k]).0@ != name by {
                    assert(entries@[k] == before[k]);
                }
                lemma_entry_lookup_at(entries@, name, i as int);
                assert forall|k: Seq<char>| k != name implies #[trigger] entry_lookup(entries@, k)
                    == entry_lookup(before, k) by {
                    lemma_entry_lookup_update(before, i as int, e, k);
                }
                assert forall|a: int| 0 <= a < entries@.len() implies (#[trigger] entries@[a]).0@
                    == before[a].0@ by {}
            }
        },
        None => {
            entries.push((key, value));
            proof {
                let e = (key, value);
                lemma_entry_lookup_none(before, name);
                assert(entries@ =~= before.push(e));
                lemma_entry_lookup_at(entries@, name, before.len() as int);
                assert forall|k: Seq<char>| k != name implies #[trigger] entry_lookup(entries@, k)
                    == entry_lookup(before, k) by {
                    lemma_entry_lookup_push(before, e, k);
                }
            }
        },
    }
}

} // verus!
