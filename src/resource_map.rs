use vstd::prelude::*;

use crate::resource::{lemma_ordinal_bijection, ordinal, resource_at, Resource, RESOURCE_COUNT};

verus! {

/// A finite map keyed by resource, listed in the resource order.
///
/// One slot per resource, at the resource's ordinal.
#[derive(Clone, Copy, Debug)]
pub struct ResourceMap<V> {
    slots: [Option<V>; RESOURCE_COUNT],
}

/// The entries of `m` whose keys come among the first `n` resources, in the
/// resource order.
pub open spec fn entries_below<V>(m: Map<Resource, V>, n: int) -> Seq<(Resource, V)>
    decreases n,
{
    if n <= 0 {
        seq![]
    } else {
        let r = resource_at(n - 1);
        if m.contains_key(r) {
            entries_below(m, n - 1).push((r, m[r]))
        } else {
            entries_below(m, n - 1)
        }
    }
}

/// All entries of `m`, in the resource order.
pub open spec fn entries_of<V>(m: Map<Resource, V>) -> Seq<(Resource, V)> {
    entries_below(m, RESOURCE_COUNT as int)
}

/// The entries below `n` are the entries of `m` whose key has an ordinal
/// below `n`, each once, in strictly increasing order of ordinal.
pub proof fn lemma_entries_below<V>(m: Map<Resource, V>, n: int)
    requires
        0 <= n <= RESOURCE_COUNT,
    ensures
        forall|i: int, j: int|
            0 <= i < j < entries_below(m, n).len() ==> ordinal(
                #[trigger] entries_below(m, n)[i].0,
            ) < ordinal(#[trigger] entries_below(m, n)[j].0),
        forall|i: int|
            0 <= i < entries_below(m, n).len() ==> {
                let e = #[trigger] entries_below(m, n)[i];
                &&& m.contains_key(e.0)
                &&& m[e.0] == e.1
                &&& ordinal(e.0) < n
            },
        forall|r: Resource|
            m.contains_key(r) && ordinal(r) < n ==> exists|i: int|
                0 <= i < entries_below(m, n).len() && (#[trigger] entries_below(m, n)[i]).0 == r,
    decreases n,
{
    lemma_ordinal_bijection();
    if n > 0 {
        lemma_entries_below(m, n - 1);
        let prev = entries_below(m, n - 1);
        let cur = entries_below(m, n);
        let r = resource_at(n - 1);
        if m.contains_key(r) {
            assert(cur == prev.push((r, m[r])));
            assert forall|k: Resource| m.contains_key(k) && ordinal(k) < n implies exists|i: int|
                0 <= i < cur.len() && (#[trigger] cur[i]).0 == k by {
                if ordinal(k) == n - 1 {
                    assert(cur[prev.len() as int].0 == k);
                } else {
                    let i = choose|i: int| 0 <= i < prev.len() && (#[trigger] prev[i]).0 == k;
                    assert(cur[i].0 == k);
                }
            }
        } else {
            assert forall|k: Resource| m.contains_key(k) && ordinal(k) < n implies exists|i: int|
                0 <= i < cur.len() && (#[trigger] cur[i]).0 == k by {
                assert(ordinal(k) != n - 1);
            }
        }
    }
}

impl<V> View for ResourceMap<V> {
    type V = Map<Resource, V>;

    closed spec fn view(&self) -> Map<Resource, V> {
        Map::new(
            |r: Resource| self.slots@[ordinal(r)] is Some,
            |r: Resource| self.slots@[ordinal(r)]->Some_0,
        )
    }
}

impl<V: Copy> ResourceMap<V> {
    /// The empty map.
    pub fn new() -> (m: Self)
        ensures
            m@ == Map::<Resource, V>::empty(),
    {
        let m = ResourceMap { slots: [None; RESOURCE_COUNT] };
        proof {
            lemma_ordinal_bijection();
        }
        assert(m@ =~= Map::<Resource, V>::empty());
        m
    }

    /// The value stored under `k`, if any.
    pub fn get(&self, k: &Resource) -> (v: Option<V>)
        ensures
            v == (if self@.contains_key(*k) {
                Some(self@[*k])
            } else {
                None
            }),
    {
        proof {
            lemma_ordinal_bijection();
        }
        self.slots[k.ordinal()]
    }

    /// Whether a value is stored under `k`.
    pub fn contains_key(&self, k: &Resource) -> (b: bool)
        ensures
            b == self@.contains_key(*k),
    {
        proof {
            lemma_ordinal_bijection();
        }
        self.slots[k.ordinal()].is_some()
    }

    /// Stores `v` under `k`, replacing what was there.
    pub fn insert(&mut self, k: Resource, v: V)
        ensures
            final(self)@ == old(self)@.insert(k, v),
    {
        proof {
            lemma_ordinal_bijection();
        }
        let i = k.ordinal();
        self.slots[i] = Some(v);
        assert(self@ =~= old(self)@.insert(k, v));
    }

    /// The entries, in the resource order.
    pub fn entries(&self) -> (es: Vec<(Resource, V)>)
        ensures
            es@ == entries_of(self@),
    {
        proof {
            lemma_ordinal_bijection();
        }
        let mut es: Vec<(Resource, V)> = Vec::new();
        let mut i: usize = 0;
        while i < RESOURCE_COUNT
            invariant
                i <= RESOURCE_COUNT,
                es@ == entries_below(self@, i as int),
            decreases RESOURCE_COUNT - i,
        {
            let r = Resource::from_ordinal(i);
            if let Some(v) = self.slots[i] {
                es.push((r, v));
            }
            i = i + 1;
        }
        es
    }

    /// Number of entries.
    pub fn len(&self) -> (n: usize)
        ensures
            n == self@.len(),
            n == entries_of(self@).len(),
    {
        let es = self.entries();
        proof {
            lemma_entries_count(self@);
        }
        es.len()
    }
}

/// A map has as many entries as keys.
pub proof fn lemma_entries_count<V>(m: Map<Resource, V>)
    ensures
        entries_of(m).len() == m.len(),
        m.dom().finite(),
{
    lemma_ordinal_bijection();
    let es = entries_of(m);
    lemma_entries_below(m, RESOURCE_COUNT as int);
    let keys = es.map_values(|e: (Resource, V)| e.0);
    assert(keys.no_duplicates()) by {
        assert forall|i: int, j: int| 0 <= i < keys.len() && 0 <= j < keys.len() && i != j implies keys[i]
            != keys[j] by {
            if i < j {
                assert(ordinal(es[i].0) < ordinal(es[j].0));
            } else {
                assert(ordinal(es[j].0) < ordinal(es[i].0));
            }
        }
    }
    assert(keys.to_set() =~= m.dom()) by {
        assert forall|r: Resource| keys.to_set().contains(r) <==> m.dom().contains(r) by {
            if m.dom().contains(r) {
                let i = choose|i: int| 0 <= i < es.len() && (#[trigger] es[i]).0 == r;
                assert(keys[i] == r);
            }
            if keys.to_set().contains(r) {
                let i = choose|i: int| 0 <= i < keys.len() && keys[i] == r;
                assert(es[i].0 == r);
            }
        }
    }
    keys.unique_seq_to_set();
}

} // verus!
