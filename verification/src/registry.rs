//! The registry of a shard manager: at most one handle per shard.

use std::collections::HashMap;
use vstd::prelude::*;

use crate::range::ShardId;

verus! {

broadcast use vstd::std_specs::hash::group_hash_axioms;

/// The integer key of a shard in the registry: its number in the high 32
/// bits, its total in the low 32 bits.
pub open spec fn shard_key(id: ShardId) -> u64 {
    (id.number as u64 * 0x1_0000_0000 + id.total as u64) as u64
}

/// Different shards have different keys.
pub proof fn lemma_shard_key_injective(a: ShardId, b: ShardId)
    ensures
        shard_key(a) == shard_key(b) ==> a == b,
{
    assert(a.number as u64 * 0x1_0000_0000 + a.total as u64 <= u64::MAX) by (nonlinear_arith);
    assert(b.number as u64 * 0x1_0000_0000 + b.total as u64 <= u64::MAX) by (nonlinear_arith);
    if shard_key(a) == shard_key(b) {
        if a.number < b.number {
            assert(a.number * 0x1_0000_0000 + 0x1_0000_0000 <= b.number * 0x1_0000_0000) by (nonlinear_arith)
                requires a.number < b.number;
        } else if b.number < a.number {
            assert(b.number * 0x1_0000_0000 + 0x1_0000_0000 <= a.number * 0x1_0000_0000) by (nonlinear_arith)
                requires b.number < a.number;
        }
    }
}

fn key_of(id: ShardId) -> (k: u64)
    ensures
        k == shard_key(id),
{
    assert(id.number as u64 * 0x1_0000_0000 + id.total as u64 <= u64::MAX) by (nonlinear_arith);
    (id.number as u64) * 0x1_0000_0000 + (id.total as u64)
}

/// Handles of running shards, at most one per shard id, in a hash map keyed
/// by [`shard_key`], with the registered ids in order of registration.
pub struct ShardRegistry<H> {
    shards: HashMap<u64, (ShardId, H)>,
    ids: Vec<ShardId>,
}

/// The handle registered for each shard id of a map keyed by `shard_key`.
pub open spec fn registry_map<H>(shards: Map<u64, (ShardId, H)>) -> Map<ShardId, H> {
    Map::new(
        |id: ShardId| shards.contains_key(shard_key(id)),
        |id: ShardId| shards[shard_key(id)].1,
    )
}

/// Whether every entry of the map sits under the key of its shard.
pub open spec fn keyed_by_shard<H>(shards: Map<u64, (ShardId, H)>) -> bool {
    forall|k: u64| #[trigger] shards.contains_key(k) ==> shard_key(shards[k].0) == k
}

impl<H> View for ShardRegistry<H> {
    type V = Map<ShardId, H>;

    closed spec fn view(&self) -> Map<ShardId, H> {
        registry_map(self.shards@)
    }
}

proof fn lemma_view_len<H>(m: Map<u64, (ShardId, H)>)
    requires
        keyed_by_shard(m),
        m.dom().finite(),
    ensures
        registry_map(m).dom().finite(),
        registry_map(m).len() == m.len(),
{
    let f = |k: u64| m[k].0;
    assert(registry_map(m).dom() =~= m.dom().map(f)) by {
        assert forall|id: ShardId| registry_map(m).dom().contains(id) implies m.dom().map(f).contains(id) by {
            assert(f(shard_key(id)) == m[shard_key(id)].0);
            lemma_shard_key_injective(m[shard_key(id)].0, id);
        }
        assert forall|id: ShardId| m.dom().map(f).contains(id) implies registry_map(m).dom().contains(id) by {
            let k = choose|k: u64| m.dom().contains(k) && f(k) == id;
            assert(m.contains_key(k));
        }
    }
    assert forall|a: u64, b: u64| m.dom().contains(a) && m.dom().contains(b) && #[trigger] f(a) == #[trigger] f(b) implies a == b by {
        assert(m.contains_key(a) && m.contains_key(b));
    }
    vstd::set_lib::lemma_map_size(m.dom(), m.dom().map(f), f);
}

/// Whether `ids` lists the shard ids of the map, each once.
pub open spec fn lists_ids<H>(shards: Map<u64, (ShardId, H)>, ids: Seq<ShardId>) -> bool {
    &&& ids.no_duplicates()
    &&& forall|id: ShardId| registry_map(shards).contains_key(id) <==> #[trigger] ids.contains(id)
}

impl<H> ShardRegistry<H> {
    #[verifier::type_invariant]
    spec fn inv(self) -> bool {
        &&& keyed_by_shard(self.shards@)
        &&& lists_ids(self.shards@, self.ids@)
    }

    /// The registered shard ids in order of registration: a shard comes in
    /// at its first registration and keeps its place when its handle is
    /// replaced.
    pub closed spec fn order(&self) -> Seq<ShardId> {
        self.ids@
    }

    /// An empty registry.
    pub fn new() -> (r: ShardRegistry<H>)
        ensures
            r@ == Map::<ShardId, H>::empty(),
            r.order() == Seq::<ShardId>::empty(),
    {
        let shards: HashMap<u64, (ShardId, H)> = HashMap::new();
        let ids: Vec<ShardId> = Vec::new();
        assert(registry_map(shards@) =~= Map::<ShardId, H>::empty());
        let r = ShardRegistry { shards, ids };
        r
    }

    /// The number of registered shards.
    pub fn len(&self) -> (n: usize)
        ensures
            self@.dom().finite(),
            n == self@.len(),
    {
        proof {
            use_type_invariant(self);
            lemma_view_len(self.shards@);
        }
        self.shards.len()
    }

    /// Whether a handle is registered for `id`.
    pub fn contains(&self, id: ShardId) -> (r: bool)
        ensures
            r == self@.contains_key(id),
    {
        self.shards.contains_key(&key_of(id))
    }

    /// The handle registered for `id`, if any.
    pub fn get(&self, id: ShardId) -> (r: Option<&H>)
        ensures
            match r {
                Some(h) => self@.contains_key(id) && *h == self@[id],
                None => !self@.contains_key(id),
            },
    {
        match self.shards.get(&key_of(id)) {
            Some(entry) => Some(&entry.1),
            None => None,
        }
    }

    /// The registered shard ids, each once, in order of registration.
    pub fn ids(&self) -> (ids: Vec<ShardId>)
        ensures
            ids@ == self.order(),
            forall|id: ShardId| self@.contains_key(id) <==> ids@.contains(id),
            ids@.no_duplicates(),
    {
        proof { use_type_invariant(self); }
        let mut ids: Vec<ShardId> = Vec::new();
        let mut i: usize = 0;
        while i < self.ids.len()
            invariant
                i <= self.ids@.len(),
                ids@ == self.ids@.take(i as int),
            decreases self.ids@.len() - i,
        {
            ids.push(self.ids[i]);
            i = i + 1;
            assert(ids@ =~= self.ids@.take(i as int));
        }
        assert(ids@ =~= self.ids@);
        ids
    }

    /// Registers `handle` for `id`, handing back the handle it replaces, if
    /// any (the manager closes it: it would otherwise run orphaned).
    pub fn insert(&mut self, id: ShardId, handle: H) -> (replaced: Option<H>)
        ensures
            final(self)@ == old(self)@.insert(id, handle),
            replaced == (if old(self)@.contains_key(id) { Some(old(self)@[id]) } else { None::<H> }),
            final(self).order() == (if old(self)@.contains_key(id) { old(self).order() } else { old(self).order().push(id) }),
    {
        proof { use_type_invariant(&*self); }
        let mut this: ShardRegistry<H> = ShardRegistry::new();
        std::mem::swap(&mut this, self);
        proof { use_type_invariant(&this); }
        let ShardRegistry { mut shards, mut ids } = this;
        let ghost old_map = shards@;
        let ghost old_ids = ids@;
        let known = shards.contains_key(&key_of(id));
        let previous = shards.insert(key_of(id), (id, handle));
        if !known {
            ids.push(id);
        }
        proof {
            assert forall|k: u64| #[trigger] shards@.contains_key(k) implies shard_key(shards@[k].0) == k by {
                if k != shard_key(id) {
                    assert(old_map.contains_key(k));
                }
            }
            assert forall|x: ShardId| registry_map(shards@).contains_key(x) <==> registry_map(old_map).insert(id, handle).contains_key(x) by {
                lemma_shard_key_injective(x, id);
            }
            assert forall|x: ShardId| #[trigger] registry_map(shards@).contains_key(x) implies registry_map(shards@)[x] == registry_map(old_map).insert(id, handle)[x] by {
                lemma_shard_key_injective(x, id);
            }
            assert(registry_map(shards@) =~= registry_map(old_map).insert(id, handle));
            if !known {
                assert(!old_ids.contains(id));
                assert forall|x: ShardId| registry_map(shards@).contains_key(x) <==> #[trigger] ids@.contains(x) by {
                    if x == id {
                        assert(ids@[old_ids.len() as int] == id);
                    } else if ids@.contains(x) {
                        let j = choose|j: int| 0 <= j < ids@.len() && ids@[j] == x;
                        assert(j < old_ids.len());
                        assert(old_ids.contains(x));
                    } else if old_ids.contains(x) {
                        let j = choose|j: int| 0 <= j < old_ids.len() && old_ids[j] == x;
                        assert(ids@[j] == x);
                    }
                }
                assert forall|a: int, b: int| 0 <= a < ids@.len() && 0 <= b < ids@.len() && a != b implies ids@[a] != ids@[b] by {
                    if a < old_ids.len() && b < old_ids.len() {
                        assert(old_ids[a] != old_ids[b]);
                    } else if a < old_ids.len() {
                        assert(old_ids.contains(old_ids[a]));
                    } else {
                        assert(old_ids.contains(old_ids[b]));
                    }
                }
            } else {
                assert forall|x: ShardId| registry_map(shards@).contains_key(x) <==> #[trigger] ids@.contains(x) by {
                    lemma_shard_key_injective(x, id);
                }
            }
        }
        *self = ShardRegistry { shards, ids };
        match previous {
            Some(entry) => Some(entry.1),
            None => None,
        }
    }

    /// Takes every registered handle out with its shard id, in order of
    /// registration, leaving the registry empty.
    pub fn drain(&mut self) -> (all: Vec<(ShardId, H)>)
        ensures
            final(self)@ == Map::<ShardId, H>::empty(),
            final(self).order() == Seq::<ShardId>::empty(),
            all@.len() == old(self).order().len(),
            forall|i: int| 0 <= i < all@.len() ==> (#[trigger] all@[i]).0 == old(self).order()[i],
            forall|i: int, j: int| 0 <= i < j < all@.len() ==> (#[trigger] all@[i]).0 != (#[trigger] all@[j]).0,
            forall|i: int| 0 <= i < all@.len() ==> old(self)@.contains_key((#[trigger] all@[i]).0)
                && old(self)@[all@[i].0] == all@[i].1,
            forall|id: ShardId| old(self)@.contains_key(id) ==> exists|i: int| 0 <= i < all@.len() && (#[trigger] all@[i]).0 == id,
    {
        proof { use_type_invariant(&*self); }
        let ghost old_view = self@;
        let mut this: ShardRegistry<H> = ShardRegistry::new();
        std::mem::swap(&mut this, self);
        proof { use_type_invariant(&this); }
        let ShardRegistry { mut shards, ids } = this;
        assert(registry_map(shards@) == old_view);
        assert forall|k: int| 0 <= k < ids@.len() implies registry_map(shards@).contains_key(#[trigger] ids@[k])
            && registry_map(shards@)[ids@[k]] == old_view[ids@[k]] by {
            assert(ids@.contains(ids@[k]));
        }
        let mut all: Vec<(ShardId, H)> = Vec::new();
        let mut i: usize = 0;
        while i < ids.len()
            invariant
                i <= ids@.len(),
                ids@.no_duplicates(),
                forall|id: ShardId| old_view.contains_key(id) <==> ids@.contains(id),
                keyed_by_shard(shards@),
                all@.len() == i,
                forall|k: int| 0 <= k < i ==> (#[trigger] all@[k]).0 == ids@[k] && old_view.contains_key(ids@[k])
                    && old_view[ids@[k]] == all@[k].1,
                forall|k: int| i <= k < ids@.len() ==> registry_map(shards@).contains_key(#[trigger] ids@[k])
                    && registry_map(shards@)[ids@[k]] == old_view[ids@[k]],
            decreases ids@.len() - i,
        {
            let id = ids[i];
            let ghost before = shards@;
            let entry = shards.remove(&key_of(id));
            proof {
                assert(ids@.contains(ids@[i as int]));
                assert(old_view.contains_key(id));
                assert(registry_map(before).contains_key(ids@[i as int]));
                assert forall|k: int| i + 1 <= k < ids@.len() implies registry_map(shards@).contains_key(#[trigger] ids@[k])
                    && registry_map(shards@)[ids@[k]] == old_view[ids@[k]] by {
                    assert(registry_map(before).contains_key(ids@[k]));
                    lemma_shard_key_injective(ids@[k], id);
                    assert(ids@[k] != ids@[i as int]);
                }
                assert forall|k: u64| #[trigger] shards@.contains_key(k) implies shard_key(shards@[k].0) == k by {
                    assert(before.contains_key(k));
                }
            }
            match entry {
                Some(e) => {
                    assert(e == before[shard_key(id)]);
                    all.push((id, e.1));
                },
                None => {
                    proof { assert(false); }
                },
            }
            i = i + 1;
        }
        assert forall|id: ShardId| old_view.contains_key(id) implies exists|k: int| 0 <= k < all@.len() && (#[trigger] all@[k]).0 == id by {
            assert(ids@.contains(id));
            let k = choose|k: int| 0 <= k < ids@.len() && ids@[k] == id;
            assert(0 <= k < all@.len());
            assert(all@[k].0 == ids@[k]);
        }
        all
    }
}

} // verus!
