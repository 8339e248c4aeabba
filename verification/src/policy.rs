//! Address-to-protocol policy resolution.
//!
//! A policy is an exact-match table from address string to protocol plus a
//! directory-level default.  Resolution always consults the table before
//! falling back to the default.

use vstd::prelude::*;

verus! {

/// The table as a sequence of (key view, value) pairs.
pub open spec fn table_view<T>(t: Seq<(String, T)>) -> Seq<(Seq<char>, T)> {
    t.map_values(|p: (String, T)| (p.0@, p.1))
}

/// First-match lookup of `key` in `t`.
pub open spec fn spec_lookup<T>(t: Seq<(Seq<char>, T)>, key: Seq<char>) -> Option<T>
    decreases t.len(),
{
    if t.len() == 0 {
        None
    } else if t[0].0 == key {
        Some(t[0].1)
    } else {
        spec_lookup(t.drop_first(), key)
    }
}

/// Exact-match-then-default resolution.
pub open spec fn spec_resolve<T>(t: Seq<(Seq<char>, T)>, default: T, key: Seq<char>) -> T {
    match spec_lookup(t, key) {
        Some(v) => v,
        None => default,
    }
}

/// True when no two entries of `t` share a key.
pub open spec fn unique_keys<T>(t: Seq<(Seq<char>, T)>) -> bool {
    forall|i: int, j: int| 0 <= i < j < t.len() ==> (#[trigger] t[i]).0 != (#[trigger] t[j]).0
}

/// First-match lookup in an exact-match table.
pub fn lookup<T: Copy>(table: &Vec<(String, T)>, key: &str) -> (r: Option<T>)
    ensures
        r == spec_lookup(table_view(table@), key@),
{
    let ghost full = table_view(table@);
    proof {
        assert(full.skip(0) =~= full);
    }
    let n = table.len();
    let mut i: usize = 0;
    while i < n
        invariant
            n == table@.len(),
            i <= n,
            full == table_view(table@),
            full.len() == n,
            spec_lookup(full, key@) == spec_lookup(full.skip(i as int), key@),
        decreases n - i,
    {
        proof {
            assert(full.skip(i as int)[0] == full[i as int]);
        }
        if crate::strutil::str_eq(table[i].0.as_str(), key) {
            return Some(table[i].1);
        }
        proof {
            assert(full.skip(i as int).drop_first() =~= full.skip(i + 1));
        }
        i += 1;
    }
    proof {
        assert(full.skip(n as int) =~= Seq::<(Seq<char>, T)>::empty());
    }
    None
}

/// Resolves an address against the table, falling back to the default.
pub fn resolve<T: Copy>(table: &Vec<(String, T)>, default: T, key: &str) -> (r: T)
    ensures
        r == spec_resolve(table_view(table@), default, key@),
{
    match lookup(table, key) {
        Some(v) => v,
        None => default,
    }
}

/// A failed lookup means no entry carries the key.
pub proof fn lemma_lookup_none_means_absent<T>(t: Seq<(Seq<char>, T)>, key: Seq<char>)
    requires
        spec_lookup(t, key) is None,
    ensures
        forall|i: int| 0 <= i < t.len() ==> (#[trigger] t[i]).0 != key,
    decreases t.len(),
{
    if t.len() > 0 {
        lemma_lookup_none_means_absent(t.drop_first(), key);
        assert forall|i: int| 0 <= i < t.len() implies (#[trigger] t[i]).0 != key by {
            if i > 0 {
                assert(t.drop_first()[i - 1] == t[i]);
            }
        }
    }
}

/// A successful lookup returns the value of some entry carrying the key.
pub proof fn lemma_lookup_in_table<T>(t: Seq<(Seq<char>, T)>, key: Seq<char>)
    requires
        spec_lookup(t, key) is Some,
    ensures
        exists|i: int|
            0 <= i < t.len() && (#[trigger] t[i]).0 == key && t[i].1 == spec_lookup(
                t,
                key,
            ).unwrap(),
    decreases t.len(),
{
    if t[0].0 == key {
        assert(t[0].0 == key && t[0].1 == spec_lookup(t, key).unwrap());
    } else {
        lemma_lookup_in_table(t.drop_first(), key);
        let i = choose|i: int|
            0 <= i < t.drop_first().len() && (#[trigger] t.drop_first()[i]).0 == key
                && t.drop_first()[i].1 == spec_lookup(t.drop_first(), key).unwrap();
        assert(t[i + 1] == t.drop_first()[i]);
    }
}

/// A key no entry carries is not found.
pub proof fn lemma_lookup_absent<T>(t: Seq<(Seq<char>, T)>, key: Seq<char>)
    requires
        forall|i: int| 0 <= i < t.len() ==> (#[trigger] t[i]).0 != key,
    ensures
        spec_lookup(t, key) is None,
    decreases t.len(),
{
    if t.len() > 0 {
        assert(t[0].0 != key);
        assert forall|i: int| 0 <= i < t.drop_first().len() implies (#[trigger] t.drop_first()[i]).0
            != key by {
            assert(t.drop_first()[i] == t[i + 1]);
        }
        lemma_lookup_absent(t.drop_first(), key);
    }
}

/// Appending an entry whose key was absent makes lookups of that key find
/// it.
pub proof fn lemma_lookup_push<T>(t: Seq<(Seq<char>, T)>, key: Seq<char>, v: T)
    requires
        spec_lookup(t, key) is None,
    ensures
        spec_lookup(t.push((key, v)), key) == Some(v),
    decreases t.len(),
{
    if t.len() == 0 {
        assert(t.push((key, v))[0] == (key, v));
    } else {
        assert(t.push((key, v))[0] == t[0]);
        assert(t.push((key, v)).drop_first() =~= t.drop_first().push((key, v)));
        lemma_lookup_push(t.drop_first(), key, v);
    }
}

/// An exact-match entry always overrides the directory default: when the key
/// has an entry in the table, resolution does not depend on the default at
/// all.
pub proof fn lemma_exact_match_overrides_default<T>(
    t: Seq<(Seq<char>, T)>,
    d1: T,
    d2: T,
    key: Seq<char>,
)
    requires
        exists|i: int| 0 <= i < t.len() && (#[trigger] t[i]).0 == key,
    ensures
        spec_lookup(t, key) is Some,
        spec_resolve(t, d1, key) == spec_resolve(t, d2, key),
    decreases t.len(),
{
    let i = choose|i: int| 0 <= i < t.len() && (#[trigger] t[i]).0 == key;
    if t[0].0 != key {
        assert(t.drop_first()[i - 1] == t[i]);
        lemma_exact_match_overrides_default(t.drop_first(), d1, d2, key);
    }
}

/// In a table without duplicate keys the position of an entry is irrelevant:
/// whichever index holds the key, resolution yields that entry's value.
pub proof fn lemma_lookup_order_independent<T>(t: Seq<(Seq<char>, T)>, key: Seq<char>, i: int)
    requires
        unique_keys(t),
        0 <= i < t.len(),
        t[i].0 == key,
    ensures
        spec_lookup(t, key) == Some(t[i].1),
    decreases t.len(),
{
    if i == 0 {
    } else {
        assert(t[0].0 != key);
        assert(unique_keys(t.drop_first())) by {
            assert(forall|x: int|
                0 <= x < t.drop_first().len() ==> (#[trigger] t.drop_first()[x]) == t[x + 1]);
        }
        assert(t.drop_first()[i - 1] == t[i]);
        lemma_lookup_order_independent(t.drop_first(), key, i - 1);
    }
}

} // verus!
