//! Walking a hash map or a hash set in the order in which it hands out its
//! items.

use vstd::prelude::*;
use vstd::std_specs::iter::IteratorSpec;
use std::collections::HashMap;
use std::collections::HashSet;

verus! {

broadcast use vstd::std_specs::hash::group_hash_axioms;

/// `ks` names every member of `s` exactly once.
pub open spec fn is_listing<K>(ks: Seq<K>, s: Set<K>) -> bool {
    ks.no_duplicates() && ks.to_set() == s
}

/// The keys of a map, each once, in the map's own order.
pub(crate) fn keys_of<K: Copy, V>(m: &HashMap<K, V>) -> (r: Vec<K>)
    requires
        vstd::std_specs::hash::obeys_key_model::<K>(),
    ensures
        is_listing(r@, m@.dom()),
{
    let mut out: Vec<K> = Vec::new();
    let it = m.iter();
    let ghost all = it.remaining();
    for pair in iter: it
        invariant
            iter.seq() == all,
            out@.len() == iter.index(),
            forall|j: int| 0 <= j < out@.len() ==> out@[j] == *all[j].0,
    {
        let (k, _v) = pair;
        out.push(*k);
    }
    proof {
        assert forall|i: int, j: int|
            0 <= i < out@.len() && 0 <= j < out@.len() && i != j implies out@[i] != out@[j] by {
            assert(m@.contains_key(*all[i].0) && m@[*all[i].0] == *all[i].1);
            assert(m@.contains_key(*all[j].0) && m@[*all[j].0] == *all[j].1);
            if out@[i] == out@[j] {
                assert(all[i] == all[j]);
            }
        }
        assert forall|k: K| out@.to_set().contains(k) <==> m@.dom().contains(k) by {
            if m@.dom().contains(k) {
                assert(m@.contains_key(k));
                assert(all.contains((&k, &m@[k])));
                let i = choose|i: int| 0 <= i < all.len() && all[i] == (&k, &m@[k]);
                assert(out@[i] == k);
            }
            if out@.to_set().contains(k) {
                let i = choose|i: int| 0 <= i < out@.len() && out@[i] == k;
                assert(m@.contains_key(*all[i].0));
            }
        }
        assert(out@.to_set() =~= m@.dom());
    }
    out
}

/// The members of a set of durable ids, each once, in the set's own order.
pub(crate) fn members_of(s: &HashSet<u128>) -> (r: Vec<u128>)
    ensures
        is_listing(r@, s@),
{
    let mut out: Vec<u128> = Vec::new();
    let it = s.iter();
    let ghost all = it.remaining();
    for k in iter: it
        invariant
            iter.seq() == all,
            out@.len() == iter.index(),
            forall|j: int| 0 <= j < out@.len() ==> out@[j] == *all[j],
    {
        out.push(*k);
    }
    proof {
        assert(out@ =~= all.unref());
    }
    out
}

} // verus!
