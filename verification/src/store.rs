//! The mathematical model of the host ledger's record store: an
//! association sequence with first-match lookup. The host's atomic
//! "allocate-if-absent" primitive appends a record only when no record
//! with the same key is present, and an existing record is never
//! displaced, so lookup by first match describes the store exactly.

use vstd::prelude::*;

verus! {

/// First-match lookup in an association sequence.
pub open spec fn lookup<K, V>(s: Seq<(K, V)>, key: K) -> Option<V>
    decreases s.len(),
{
    if s.len() == 0 {
        None
    } else if s[0].0 == key {
        Some(s[0].1)
    } else {
        lookup(s.drop_first(), key)
    }
}

/// Whether the store holds a record under `key`.
pub open spec fn contains_key<K, V>(s: Seq<(K, V)>, key: K) -> bool {
    lookup(s, key) is Some
}

/// Looking a key up in a concatenation finds the left store's record
/// first; records of the left store can never be displaced by growth
/// on the right.
pub proof fn lemma_lookup_append<K, V>(s: Seq<(K, V)>, t: Seq<(K, V)>, key: K)
    ensures
        lookup(s + t, key) == (if contains_key(s, key) {
            lookup(s, key)
        } else {
            lookup(t, key)
        }),
    decreases s.len(),
{
    if s.len() == 0 {
        assert(s + t =~= t);
    } else {
        assert((s + t).drop_first() =~= s.drop_first() + t);
        lemma_lookup_append(s.drop_first(), t, key);
    }
}

/// Appending one record: every present key keeps its record, and the
/// new key becomes present with the new record.
pub proof fn lemma_lookup_push<K, V>(s: Seq<(K, V)>, k: K, v: V, key: K)
    ensures
        lookup(s.push((k, v)), key) == (if contains_key(s, key) {
            lookup(s, key)
        } else if key == k {
            Some(v)
        } else {
            None::<V>
        }),
{
    assert(s.push((k, v)) =~= s + seq![(k, v)]);
    lemma_lookup_append(s, seq![(k, v)], key);
    if !contains_key(s, key) && key != k {
        let u = seq![(k, v)];
        assert(u[0] == (k, v));
        let e = u.drop_first();
        assert(e =~= Seq::<(K, V)>::empty());
        assert(lookup(e, key) == None::<V>);
        assert(lookup(u, key) == None::<V>);
    }
}

/// A found record is one of the store's entries, stored under the key
/// it was looked up by.
pub proof fn lemma_lookup_finds_entry<K, V>(s: Seq<(K, V)>, key: K)
    requires
        lookup(s, key) is Some,
    ensures
        exists|i: int| 0 <= i < s.len() && s[i] == (key, lookup(s, key)->Some_0),
    decreases s.len(),
{
    if s[0].0 == key {
        assert(s[0] =~= (key, lookup(s, key)->Some_0));
    } else {
        lemma_lookup_finds_entry(s.drop_first(), key);
        let r = s.drop_first();
        let i = choose|i: int| 0 <= i < r.len() && r[i] == (key, lookup(r, key)->Some_0);
        assert(s[i + 1] == r[i]);
    }
}

/// Overwriting the record at the first position that holds `k` changes
/// the lookup of `k` alone.
pub proof fn lemma_lookup_update_first<K, V>(s: Seq<(K, V)>, i: int, v: V, key: K)
    requires
        0 <= i < s.len(),
        forall|j: int| 0 <= j < i ==> s[j].0 != s[i].0,
    ensures
        lookup(s.update(i, (s[i].0, v)), key) == (if key == s[i].0 {
            Some(v)
        } else {
            lookup(s, key)
        }),
    decreases i,
{
    let t = s.update(i, (s[i].0, v));
    if i == 0 {
        if key != s[0].0 {
            assert(t.drop_first() =~= s.drop_first());
        }
    } else {
        assert(t.drop_first() =~= s.drop_first().update(i - 1, (s[i].0, v)));
        assert(s.drop_first()[i - 1] == s[i]);
        lemma_lookup_update_first(s.drop_first(), i - 1, v, key);
    }
}

} // verus!
