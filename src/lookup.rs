//! Lookup by identifier: the first record, in insertion order, whose key matches.

use vstd::prelude::*;

verus! {

/// `i` is the least position of `ids` that holds `id`.
pub open spec fn is_first_index(ids: Seq<u32>, id: u32, i: int) -> bool {
    &&& 0 <= i < ids.len()
    &&& ids[i] == id
    &&& forall|j: int| 0 <= j < i ==> ids[j] != id
}

/// The least position of `ids` that holds `id`, if any position does.
pub open spec fn first_index(ids: Seq<u32>, id: u32) -> Option<int> {
    if ids.contains(id) {
        Some(choose|i: int| is_first_index(ids, id, i))
    } else {
        None
    }
}

proof fn lemma_first_index_exists(ids: Seq<u32>, id: u32, k: int)
    requires
        0 <= k < ids.len(),
        ids[k] == id,
    ensures
        exists|i: int| is_first_index(ids, id, i),
    decreases k,
{
    if exists|j: int| 0 <= j < k && ids[j] == id {
        let j = choose|j: int| 0 <= j < k && ids[j] == id;
        lemma_first_index_exists(ids, id, j);
    } else {
        assert(is_first_index(ids, id, k));
    }
}

/// `first_index` is the least matching position, and is absent exactly when
/// no position holds the identifier.
pub proof fn lemma_first_index(ids: Seq<u32>, id: u32)
    ensures
        first_index(ids, id) is None <==> !ids.contains(id),
        first_index(ids, id) matches Some(i) ==> is_first_index(ids, id, i),
        forall|i: int| is_first_index(ids, id, i) ==> first_index(ids, id) == Some(i),
{
    if ids.contains(id) {
        let k = choose|k: int| 0 <= k < ids.len() && ids[k] == id;
        lemma_first_index_exists(ids, id, k);
        let f = choose|i: int| is_first_index(ids, id, i);
        assert forall|i: int| is_first_index(ids, id, i) implies i == f by {
            if i < f {
                assert(ids[i] != id);
            } else if f < i {
                assert(ids[f] != id);
            }
        }
    }
}

/// A record that carries an identifier.
pub trait Keyed {
    spec fn key(&self) -> u32;

    fn id(&self) -> (r: u32)
        ensures
            r == self.key(),
    ;
}

/// The identifiers of `v`, position by position.
pub open spec fn keys_of<T: Keyed>(v: Seq<T>) -> Seq<u32> {
    v.map_values(|x: T| x.key())
}

/// Position of the first record of `v` whose identifier is `id`.
pub fn first_position<T: Keyed>(v: &Vec<T>, id: u32) -> (r: Option<usize>)
    ensures
        r matches Some(p) ==> p < v@.len() && first_index(keys_of(v@), id) == Some(p as int),
        r is None ==> first_index(keys_of(v@), id) is None,
{
    proof {
        lemma_first_index(keys_of(v@), id);
    }
    let mut i: usize = 0;
    while i < v.len()
        invariant
            i <= v.len(),
            forall|j: int| 0 <= j < i ==> keys_of(v@)[j] != id,
            forall|i: int| is_first_index(keys_of(v@), id, i) ==> first_index(keys_of(v@), id) == Some(i),
            first_index(keys_of(v@), id) is None <==> !keys_of(v@).contains(id),
        decreases v.len() - i,
    {
        if v[i].id() == id {
            assert(is_first_index(keys_of(v@), id, i as int));
            return Some(i);
        }
        i = i + 1;
    }
    assert(!keys_of(v@).contains(id));
    None
}

} // verus!
