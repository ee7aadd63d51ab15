//! The keys of a map in ascending order.

use std::collections::HashMap;
use vstd::prelude::*;
use vstd::std_specs::iter::IteratorSpec;

verus! {

broadcast use vstd::std_specs::hash::group_hash_axioms;
/// Whether each element of the sequence is less than the next.
pub open spec fn is_ascending(s: Seq<usize>) -> bool {
    forall|i: int, j: int| 0 <= i < j < s.len() ==> s[i] < s[j]
}

/// Whether the sequence lists the elements of the set in ascending order.
pub open spec fn lists_ascending(s: Seq<usize>, keys: Set<usize>) -> bool {
    is_ascending(s) && forall|k: usize| s.contains(k) <==> keys.contains(k)
}

/// The elements of a finite set in ascending order.
pub open spec fn ascending(keys: Set<usize>) -> Seq<usize> {
    choose|s: Seq<usize>| lists_ascending(s, keys)
}

/// Two sequences that list the same set in ascending order are the same.
pub proof fn lemma_ascending_unique(a: Seq<usize>, b: Seq<usize>, keys: Set<usize>)
    requires
        lists_ascending(a, keys),
        lists_ascending(b, keys),
    ensures
        a == b,
    decreases a.len(),
{
    if a.len() == 0 {
        if b.len() > 0 {
            assert(b.contains(b[0]));
            assert(a.contains(b[0]));
        }
        assert(a =~= b);
    } else {
        let top = a.last();
        assert(a.contains(top));
        assert(b.contains(top));
        let at = choose|j: int| 0 <= j < b.len() && b[j] == top;
        assert(b.contains(b.last()));
        assert(a.contains(b.last()));
        let back = choose|i: int| 0 <= i < a.len() && a[i] == b.last();
        assert(b.last() == top);
        let rest = keys.remove(top);
        assert forall|k: usize| a.drop_last().contains(k) <==> rest.contains(k) by {
            if a.drop_last().contains(k) {
                let i = choose|i: int| 0 <= i < a.drop_last().len() && a.drop_last()[i] == k;
                assert(a[i] == k);
                assert(a.contains(k));
            }
            if rest.contains(k) {
                assert(a.contains(k));
                let i = choose|i: int| 0 <= i < a.len() && a[i] == k;
                assert(a.drop_last()[i] == k);
            }
        }
        assert forall|k: usize| b.drop_last().contains(k) <==> rest.contains(k) by {
            if b.drop_last().contains(k) {
                let i = choose|i: int| 0 <= i < b.drop_last().len() && b.drop_last()[i] == k;
                assert(b[i] == k);
                assert(b.contains(k));
            }
            if rest.contains(k) {
                assert(b.contains(k));
                let i = choose|i: int| 0 <= i < b.len() && b[i] == k;
                assert(b.drop_last()[i] == k);
            }
        }
        lemma_ascending_unique(a.drop_last(), b.drop_last(), rest);
        assert(a =~= a.drop_last().push(top));
        assert(b =~= b.drop_last().push(top));
    }
}

/// A sequence that lists a set in ascending order is the ascending order of
/// the set.
pub proof fn lemma_ascending_is(s: Seq<usize>, keys: Set<usize>)
    requires
        lists_ascending(s, keys),
    ensures
        ascending(keys) == s,
{
    lemma_ascending_unique(ascending(keys), s, keys);
}

/// Puts a key into an ascending list at its place. No change where the list
/// holds it already.
fn insert_ascending(keys: &mut Vec<usize>, key: usize)
    requires
        is_ascending(old(keys)@),
    ensures
        is_ascending(final(keys)@),
        forall|k: usize| final(keys)@.contains(k) <==> old(keys)@.contains(k) || k == key,
{
    let mut i: usize = 0;
    while i < keys.len() && keys[i] < key
        invariant
            i <= keys.len(),
            *keys == *old(keys),
            forall|j: int| 0 <= j < i ==> keys[j] < key,
        decreases keys.len() - i,
    {
        i += 1;
    }
    if i < keys.len() && keys[i] == key {
        assert(keys@.contains(key));
        return;
    }
    keys.insert(i, key);
    proof {
        let before = old(keys)@;
        let after = keys@;
        assert(after[i as int] == key);
        assert forall|k: usize| after.contains(k) <==> before.contains(k) || k == key by {
            if after.contains(k) {
                let j = choose|j: int| 0 <= j < after.len() && after[j] == k;
                if j < i {
                    assert(before[j] == k);
                } else if j > i {
                    assert(before[j - 1] == k);
                }
            }
            if before.contains(k) {
                let j = choose|j: int| 0 <= j < before.len() && before[j] == k;
                if j < i {
                    assert(after[j] == k);
                } else {
                    assert(after[j + 1] == k);
                }
            }
        }
    }
}

/// The keys of a map in ascending order.
pub fn sorted_keys<V>(map: &HashMap<usize, V>) -> (keys: Vec<usize>)
    ensures
        keys@ == ascending(map@.dom()),
        lists_ascending(keys@, map@.dom()),
{
    let ghost all = vstd::std_specs::hash::spec_keys_iter(map).remaining();
    let ghost mut seen: int = 0;
    let mut keys: Vec<usize> = Vec::new();
    for key in it: map.keys()
        invariant
            it.seq() == all,
            seen == it.index(),
            is_ascending(keys@),
            forall|k: usize| keys@.contains(k) <==> exists|j: int| 0 <= j < seen && *all[j] == k,
    {
        insert_ascending(&mut keys, *key);
        proof {
            assert forall|k: usize| keys@.contains(k) <==> exists|j: int|
                0 <= j < seen + 1 && *all[j] == k by {
                if k == *key {
                    assert(*all[seen] == k);
                }
            }
            seen = seen + 1;
        }
    }
    proof {
        assert(seen == all.len());
        assert forall|k: usize| keys@.contains(k) <==> map@.dom().contains(k) by {
            if keys@.contains(k) {
                let j = choose|j: int| 0 <= j < seen && *all[j] == k;
                assert(all.unref()[j] == k);
                assert(all.unref().contains(k));
                assert(all.unref().to_set().contains(k));
            }
            if map@.dom().contains(k) {
                assert(all.unref().to_set().contains(k));
                assert(all.unref().contains(k));
                let j = choose|j: int| 0 <= j < all.unref().len() && all.unref()[j] == k;
                assert(*all[j] == k);
            }
        }
        lemma_ascending_is(keys@, map@.dom());
    }
    keys
}

} // verus!
