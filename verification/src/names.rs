//! Lists of named entries: finding the entry of a name, and telling whether
//! a name stands twice.

use crate::text::str_eq;
use vstd::prelude::*;
use vstd::string::*;

verus! {

/// Whether `i` is the first place at which `key` stands in `entries`.
pub open spec fn first_at<T>(entries: Seq<(Seq<char>, T)>, key: Seq<char>, i: int) -> bool {
    &&& 0 <= i < entries.len()
    &&& entries[i].0 == key
    &&& forall|j: int| 0 <= j < i ==> (#[trigger] entries[j]).0 != key
}

/// The value of the first entry named `key`.
pub open spec fn lookup<T>(entries: Seq<(Seq<char>, T)>, key: Seq<char>) -> Option<T> {
    if exists|i: int| first_at(entries, key, i) {
        Some(entries[choose|i: int| first_at(entries, key, i)].1)
    } else {
        None
    }
}

/// Where `key` first stands at `i`, `lookup` finds the value there.
pub proof fn lemma_lookup_at<T>(entries: Seq<(Seq<char>, T)>, key: Seq<char>, i: int)
    requires
        first_at(entries, key, i),
    ensures
        lookup(entries, key) == Some(entries[i].1),
{
    let j = choose|j: int| first_at(entries, key, j);
    assert(first_at(entries, key, j));
    assert(j == i);
}

/// Where `key` stands nowhere, `lookup` finds nothing.
pub proof fn lemma_lookup_none<T>(entries: Seq<(Seq<char>, T)>, key: Seq<char>)
    requires
        forall|j: int| 0 <= j < entries.len() ==> (#[trigger] entries[j]).0 != key,
    ensures
        lookup(entries, key) is None,
{
}

/// Putting a value in the place where `key` first stands changes what is
/// found under `key`, and nothing else.
pub proof fn lemma_lookup_update<T>(entries: Seq<(Seq<char>, T)>, i: int, key: Seq<char>, v: T)
    requires
        first_at(entries, key, i),
    ensures
        forall|k: Seq<char>| #[trigger]
            lookup(entries.update(i, (key, v)), k) == if k == key {
                Some(v)
            } else {
                lookup(entries, k)
            },
{
    let after = entries.update(i, (key, v));
    assert forall|k: Seq<char>| #[trigger] lookup(after, k) == if k == key {
        Some(v)
    } else {
        lookup(entries, k)
    } by {
        if k == key {
            assert(first_at(after, key, i));
            lemma_lookup_at(after, key, i);
        } else if exists|j: int| first_at(entries, k, j) {
            let j = choose|j: int| first_at(entries, k, j);
            assert(first_at(after, k, j));
            lemma_lookup_at(after, k, j);
            lemma_lookup_at(entries, k, j);
        } else {
            if exists|j: int| first_at(after, k, j) {
                let j = choose|j: int| first_at(after, k, j);
                assert(j != i);
                assert(after[j] == entries[j]);
                assert forall|m: int| 0 <= m < j implies (#[trigger] entries[m]).0 != k by {
                    if m != i {
                        assert(after[m] == entries[m]);
                    }
                }
                assert(first_at(entries, k, j));
            }
        }
    }
}

/// Adding an entry under a name that is not there yet changes what is found
/// under that name, and nothing else.
pub proof fn lemma_lookup_push<T>(entries: Seq<(Seq<char>, T)>, key: Seq<char>, v: T)
    requires
        forall|j: int| 0 <= j < entries.len() ==> (#[trigger] entries[j]).0 != key,
    ensures
        forall|k: Seq<char>| #[trigger]
            lookup(entries.push((key, v)), k) == if k == key {
                Some(v)
            } else {
                lookup(entries, k)
            },
{
    let after = entries.push((key, v));
    assert forall|k: Seq<char>| #[trigger] lookup(after, k) == if k == key {
        Some(v)
    } else {
        lookup(entries, k)
    } by {
        if k == key {
            assert(first_at(after, key, entries.len() as int));
            lemma_lookup_at(after, key, entries.len() as int);
        } else if exists|j: int| first_at(entries, k, j) {
            let j = choose|j: int| first_at(entries, k, j);
            assert(first_at(after, k, j));
            lemma_lookup_at(after, k, j);
            lemma_lookup_at(entries, k, j);
        } else {
            if exists|j: int| first_at(after, k, j) {
                let j = choose|j: int| first_at(after, k, j);
                assert(j < entries.len());
                assert(after[j] == entries[j]);
                assert forall|m: int| 0 <= m < j implies (#[trigger] entries[m]).0 != k by {
                    assert(after[m] == entries[m]);
                }
                assert(first_at(entries, k, j));
            }
        }
    }
}

/// The length, the first two characters and the last character of a text.
/// Two texts that differ in these are different texts.
pub open spec fn stamp(s: Seq<char>) -> (nat, char, char, char) {
    (s.len(), s[0], s[1], s[s.len() - 1])
}

/// Where nothing is found under `key`, no entry has that name.
pub proof fn lemma_lookup_absent<T>(entries: Seq<(Seq<char>, T)>, key: Seq<char>)
    requires
        lookup(entries, key) is None,
    ensures
        forall|j: int| 0 <= j < entries.len() ==> (#[trigger] entries[j]).0 != key,
{
    assert forall|j: int| 0 <= j < entries.len() implies (#[trigger] entries[j]).0 != key by {
        if entries[j].0 == key {
            lemma_first_exists(entries, key, j);
        }
    }
}

/// Where an entry has the name `key`, there is a first such entry.
pub proof fn lemma_first_exists<T>(entries: Seq<(Seq<char>, T)>, key: Seq<char>, j: int)
    requires
        0 <= j < entries.len(),
        entries[j].0 == key,
    ensures
        exists|i: int| first_at(entries, key, i),
    decreases j,
{
    if exists|m: int| 0 <= m < j && (#[trigger] entries[m]).0 == key {
        let m = choose|m: int| 0 <= m < j && (#[trigger] entries[m]).0 == key;
        lemma_first_exists(entries, key, m);
    } else {
        assert(first_at(entries, key, j));
    }
}

/// Whether no two entries of a list have the same name.
pub open spec fn distinct_names<T>(entries: Seq<(String, T)>) -> bool {
    forall|i: int, j: int|
        0 <= i < j < entries.len() ==> (#[trigger] entries[i]).0@ != (#[trigger] entries[j]).0@
}

/// Tells whether no two entries of a list have the same name.
pub fn names_distinct<T>(entries: &Vec<(String, T)>) -> (r: bool)
    ensures
        r == distinct_names(entries@),
{
    let mut j: usize = 0;
    while j < entries.len()
        invariant
            j <= entries.len(),
            forall|a: int, b: int|
                0 <= a < b < j ==> (#[trigger] entries@[a]).0@ != (#[trigger] entries@[b]).0@,
        decreases entries.len() - j,
    {
        let mut i: usize = 0;
        while i < j
            invariant
                i <= j < entries.len(),
                forall|a: int| 0 <= a < i ==> (#[trigger] entries@[a]).0@ != entries@[j as int].0@,
            decreases j - i,
        {
            if str_eq(entries[i].0.as_str(), entries[j].0.as_str()) {
                return false;
            }
            i = i + 1;
        }
        j = j + 1;
    }
    true
}

} // verus!
