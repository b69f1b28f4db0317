//! Lists of entries keyed by actor id, read as a mapping: the last entry
//! for an id is the one that counts, and setting an id replaces that entry
//! in place.
use vstd::prelude::*;

verus! {

/// The position of the last entry for `id`, or -1.
pub open spec fn last_index<V>(s: Seq<(u64, V)>, id: u64) -> int
    decreases s.len(),
{
    if s.len() == 0 {
        -1
    } else if s.last().0 == id {
        s.len() - 1
    } else {
        last_index(s.drop_last(), id)
    }
}

/// The record stored for `id`.
pub open spec fn lookup<V>(s: Seq<(u64, V)>, id: u64) -> Option<V> {
    let i = last_index(s, id);
    if i < 0 {
        None
    } else {
        Some(s[i].1)
    }
}

/// The entries after `id` is set to `r`: its entry is replaced in place,
/// or a new entry goes last.
pub open spec fn put<V>(s: Seq<(u64, V)>, id: u64, r: V) -> Seq<(u64, V)> {
    let i = last_index(s, id);
    if i < 0 {
        s.push((id, r))
    } else {
        s.update(i, (id, r))
    }
}

/// Two entry lists with the same ids at each position have the same last
/// position for every id.
pub proof fn lemma_same_ids<V>(s: Seq<(u64, V)>, t: Seq<(u64, V)>, id: u64)
    requires
        s.len() == t.len(),
        forall|j: int| 0 <= j < s.len() ==> s[j].0 == t[j].0,
    ensures
        last_index(s, id) == last_index(t, id),
    decreases s.len(),
{
    if s.len() > 0 {
        lemma_same_ids(s.drop_last(), t.drop_last(), id);
    }
}

/// The last position for an id holds that id, and no later entry does.
pub proof fn lemma_last_index<V>(s: Seq<(u64, V)>, id: u64)
    ensures
        -1 <= last_index(s, id) < s.len(),
        last_index(s, id) >= 0 ==> s[last_index(s, id)].0 == id,
        forall|j: int| last_index(s, id) < j < s.len() ==> s[j].0 != id,
    decreases s.len(),
{
    if s.len() > 0 && s.last().0 != id {
        let d = s.drop_last();
        lemma_last_index(d, id);
        assert forall|j: int| last_index(s, id) < j < s.len() implies s[j].0 != id by {
            if j < d.len() {
                assert(s[j] == d[j]);
            }
        }
    }
}

/// Setting an id and then looking up any id.
pub proof fn lemma_put_lookup<V>(s: Seq<(u64, V)>, id: u64, r: V, k: u64)
    ensures
        lookup(put(s, id, r), k) == (if k == id { Some(r) } else { lookup(s, k) }),
{
    let i = last_index(s, id);
    lemma_last_index(s, id);
    lemma_last_index(s, k);
    if i < 0 {
        let t = s.push((id, r));
        assert(t.drop_last() =~= s);
        assert(last_index(t, id) == s.len());
        if k != id {
            assert(last_index(t, k) == last_index(s, k));
            if last_index(s, k) >= 0 {
                assert(t[last_index(s, k)] == s[last_index(s, k)]);
            }
        }
    } else {
        let t = s.update(i, (id, r));
        assert forall|j: int| 0 <= j < s.len() implies s[j].0 == t[j].0 by {}
        lemma_same_ids(s, t, k);
        if k != id {
            assert(last_index(s, k) != i);
            if last_index(s, k) >= 0 {
                assert(t[last_index(s, k)] == s[last_index(s, k)]);
            }
        }
    }
}

} // verus!
