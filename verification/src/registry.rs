//! Lazy allocation of dense internal variable handles for sparse external ids.
//!
//! The registry maps each external variable id (a strictly positive integer)
//! to an internal handle. The first reference to an id allocates the next
//! free handle and memoizes it; later references return the cached handle.
//! Handles are never reused or reassigned within one registry's lifetime.

use std::collections::HashMap;
use vstd::prelude::*;
use vstd::set_lib::{lemma_int_range, lemma_len_subset, lemma_subset_equality, set_int_range};

verus! {

broadcast use vstd::std_specs::hash::group_hash_axioms, vstd::seq_lib::seq_to_set_is_finite, vstd::set::group_set_axioms;

/// Maps external variable ids to dense internal handles, allocated lazily in
/// first-reference order. `ids` records, for each handle, the id it denotes.
pub struct VariableRegistry {
    table: HashMap<u32, u32>,
    ids: Vec<u32>,
}

impl VariableRegistry {
    /// The external-id to internal-handle mapping.
    pub closed spec fn id_map(self) -> Map<u32, u32> {
        self.table@
    }

    /// The external id denoted by each handle, in allocation order.
    pub closed spec fn ids_seq(self) -> Seq<u32> {
        self.ids@
    }

    /// How many handles have been allocated.
    pub open spec fn count(self) -> int {
        self.ids_seq().len() as int
    }

    /// The registry's invariant: the mapping and the allocation-order record
    /// are mutual inverses, and every registered id is a valid external id.
    pub closed spec fn wf(self) -> bool {
        &&& forall|h: int|
            0 <= h < self.ids@.len() ==> self.table@.contains_key(#[trigger] self.ids@[h])
                && self.table@[self.ids@[h]] as int == h
        &&& forall|id: u32|
            #[trigger] self.table@.contains_key(id) ==> 1 <= id <= 0x7fff_ffffu32
                && (self.table@[id] as int) < self.ids@.len()
                && self.ids@[self.table@[id] as int] == id
    }

    /// What the invariant gives every client: registered ids are valid
    /// external ids and every handle lies below `count`.
    pub proof fn lemma_wf_bounds(self)
        requires
            self.wf(),
        ensures
            forall|id: u32|
                #[trigger] self.id_map().contains_key(id) ==> 1 <= id <= 0x7fff_ffffu32
                    && (self.id_map()[id] as int) < self.count()
                    && self.ids_seq()[self.id_map()[id] as int] == id,
            self.count() <= 0x7fff_ffff,
    {
        self.lemma_count_bound(None);
    }

    /// The allocation-order record never repeats an id.
    proof fn lemma_ids_distinct(self)
        requires
            self.wf(),
        ensures
            self.ids@.map_values(|x: u32| x as int).no_duplicates(),
    {
        let s = self.ids@.map_values(|x: u32| x as int);
        assert forall|i: int, j: int| 0 <= i < s.len() && 0 <= j < s.len() && i != j implies s[i]
            != s[j] by {
            assert(s[i] == self.ids@[i] as int && s[j] == self.ids@[j] as int);
            if self.ids@[i] == self.ids@[j] {
                assert(self.table@[self.ids@[i]] as int == i);
                assert(self.table@[self.ids@[j]] as int == j);
            }
        }
    }

    /// The registered ids all lie in `1 ..= 0x7fff_ffff`, and avoid `skip` if
    /// one is given, so there can only be so many of them.
    proof fn lemma_count_bound(self, skip: Option<u32>)
        requires
            self.wf(),
            skip matches Some(id) ==> !self.id_map().contains_key(skip.unwrap()) && 1
                <= skip.unwrap() <= 0x7fff_ffffu32,
        ensures
            skip is None ==> self.count() <= 0x7fff_ffff,
            skip is Some ==> self.count() <= 0x7fff_fffe,
    {
        self.lemma_ids_distinct();
        let s = self.ids@.map_values(|x: u32| x as int);
        s.unique_seq_to_set();
        let full = set_int_range(1, 0x8000_0000);
        lemma_int_range(1, 0x8000_0000);
        match skip {
            None => {
                assert forall|x: int| s.to_set().contains(x) implies full.contains(x) by {
                    let k = choose|k: int| 0 <= k < s.len() && s[k] == x;
                    assert(self.table@.contains_key(self.ids@[k]));
                }
                lemma_len_subset(s.to_set(), full);
            },
            Some(id) => {
                let avail = full.remove(id as int);
                assert forall|x: int| s.to_set().contains(x) implies avail.contains(x) by {
                    let k = choose|k: int| 0 <= k < s.len() && s[k] == x;
                    assert(self.table@.contains_key(self.ids@[k]));
                    assert(self.ids@[k] != id);
                }
                assert(avail.len() == full.len() - 1);
                lemma_len_subset(s.to_set(), avail);
            },
        }
    }

    /// A registry holding as many handles as there are valid external ids
    /// must have registered every one of them.
    pub proof fn lemma_full_coverage(self)
        requires
            self.wf(),
            self.count() == 0x7fff_ffff,
        ensures
            forall|id: u32|
                1 <= id <= 0x7fff_ffffu32 ==> #[trigger] self.id_map().contains_key(id),
    {
        self.lemma_ids_distinct();
        let s = self.ids@.map_values(|x: u32| x as int);
        s.unique_seq_to_set();
        let full = set_int_range(1, 0x8000_0000);
        lemma_int_range(1, 0x8000_0000);
        assert forall|x: int| s.to_set().contains(x) implies full.contains(x) by {
            let k = choose|k: int| 0 <= k < s.len() && s[k] == x;
            assert(self.table@.contains_key(self.ids@[k]));
        }
        lemma_subset_equality(s.to_set(), full);
        assert forall|id: u32| 1 <= id <= 0x7fff_ffffu32 implies #[trigger] self.id_map()
            .contains_key(id) by {
            assert(s.to_set().contains(id as int));
            let k = choose|k: int| 0 <= k < s.len() && s[k] == id as int;
            assert(self.ids@[k] == id);
            assert(self.table@.contains_key(self.ids@[k]));
        }
    }

    /// A registry that has registered every valid external id holds as many
    /// handles as there are such ids.
    pub proof fn lemma_coverage_count(self)
        requires
            self.wf(),
            forall|id: u32|
                1 <= id <= 0x7fff_ffffu32 ==> #[trigger] self.id_map().contains_key(id),
        ensures
            self.count() >= 0x7fff_ffff,
    {
        self.lemma_ids_distinct();
        let s = self.ids@.map_values(|x: u32| x as int);
        s.unique_seq_to_set();
        let full = set_int_range(1, 0x8000_0000);
        lemma_int_range(1, 0x8000_0000);
        assert forall|x: int| full.contains(x) implies s.to_set().contains(x) by {
            let id = x as u32;
            assert(1 <= id <= 0x7fff_ffffu32);
            assert(self.id_map().contains_key(id));
            assert(self.table@.contains_key(id));
            let h = self.table@[id] as int;
            assert(self.ids@[h] == id);
            assert(s[h] == x);
        }
        lemma_len_subset(full, s.to_set());
    }

    /// An empty registry.
    pub fn new() -> (r: Self)
        ensures
            r.wf(),
            r.id_map() == Map::<u32, u32>::empty(),
            r.count() == 0,
    {
        VariableRegistry { table: HashMap::new(), ids: Vec::new() }
    }

    /// Returns the handle registered for `id`, allocating the next free one
    /// on first reference. Ids already seen keep their handle; fresh ids get
    /// the smallest unused handle, and the mapping grows by exactly that
    /// entry.
    pub fn resolve(&mut self, id: u32) -> (h: u32)
        requires
            old(self).wf(),
            1 <= id <= 0x7fff_ffffu32,
        ensures
            final(self).wf(),
            final(self).id_map().contains_key(id) && h == final(self).id_map()[id],
            (h as int) < final(self).count(),
            h < 0x7fff_ffffu32,
            old(self).id_map().contains_key(id) ==> final(self).id_map() == old(self).id_map()
                && final(self).count() == old(self).count(),
            !old(self).id_map().contains_key(id) ==> final(self).id_map() =~= old(
                self,
            ).id_map().insert(id, h) && h as int == old(self).count() && final(self).count() == old(
                self,
            ).count() + 1,
            forall|id2: u32|
                #[trigger] old(self).id_map().contains_key(id2) ==> final(self).id_map().contains_key(
                    id2,
                ) && final(self).id_map()[id2] == old(self).id_map()[id2],
    {
        let cached = match self.table.get(&id) {
            Some(h) => Some(*h),
            None => None,
        };
        match cached {
            Some(h) => {
                proof {
                    self.lemma_count_bound(None);
                }
                h
            },
            None => {
                proof {
                    self.lemma_count_bound(Some(id));
                }
                let h = self.ids.len() as u32;
                self.table.insert(id, h);
                self.ids.push(id);
                proof {
                    assert forall|h2: int| 0 <= h2 < self.ids@.len() implies self.table@
                        .contains_key(#[trigger] self.ids@[h2]) && self.table@[self.ids@[h2]] as int
                        == h2 by {
                        if h2 < old(self).ids@.len() {
                            assert(old(self).table@.contains_key(old(self).ids@[h2]));
                        }
                    }
                }
                h
            },
        }
    }

    /// Looks an id up without allocating: the handle registered for `id`, or
    /// `None` if `id` was never referenced.
    pub fn lookup(&self, id: u32) -> (r: Option<u32>)
        ensures
            match r {
                Some(h) => self.id_map().contains_key(id) && h == self.id_map()[id],
                None => !self.id_map().contains_key(id),
            },
    {
        match self.table.get(&id) {
            Some(h) => Some(*h),
            None => None,
        }
    }

    /// How many handles have been allocated so far.
    pub fn num_vars(&self) -> (n: usize)
        ensures
            n as int == self.count(),
    {
        self.ids.len()
    }
}

} // verus!
