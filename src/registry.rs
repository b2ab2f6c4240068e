use vstd::prelude::*;

use std::collections::HashMap;

use vstd::std_specs::iter::IteratorSpec;

use crate::types::ShardId;

verus! {

/// `h` is a clone of one of the handles in `m`.
pub open spec fn is_clone_in<H: Clone>(m: Map<ShardId, H>, h: H) -> bool {
    exists|k: ShardId| m.contains_key(k) && cloned(#[trigger] m[k], h)
}

/// The shards on a node: each shard id maps to the handle of its shard.
///
/// Many holders may share a handle; the set only keeps one per shard id.
pub struct ShardSet<H> {
    inner: HashMap<ShardId, H>,
}

/// Some element of `hs` is a clone of `h`.
pub open spec fn has_clone_of<H: Clone>(hs: Seq<H>, h: H) -> bool {
    exists|i: int| 0 <= i < hs.len() && cloned(h, #[trigger] hs[i])
}

impl<H> View for ShardSet<H> {
    type V = Map<ShardId, H>;

    closed spec fn view(&self) -> Map<ShardId, H> {
        self.inner@
    }
}

impl<H: Clone> ShardSet<H> {
    /// An empty set.
    pub fn new() -> (r: ShardSet<H>)
        ensures
            r@ == Map::<ShardId, H>::empty(),
    {
        ShardSet { inner: HashMap::new() }
    }

    /// A handle for every shard, including those not opened yet, in no
    /// particular order.
    pub fn all_shards(&self) -> (r: Vec<H>)
        ensures
            r@.len() == self@.len(),
            forall|i: int| 0 <= i < r@.len() ==> is_clone_in(self@, #[trigger] r@[i]),
            forall|k: ShardId| #[trigger] self@.contains_key(k) ==> has_clone_of(r@, self@[k]),
    {
        broadcast use vstd::std_specs::hash::group_hash_axioms;
        let ghost vals = vstd::std_specs::hash::spec_values_iter(&self.inner).remaining().unref();
        let mut out: Vec<H> = Vec::new();
        for h in it: self.inner.values()
            invariant
                out@.len() == it.index(),
                it.seq().unref() == vals,
                vals.len() == self@.len(),
                vals.to_set() == self@.values(),
                forall|i: int| 0 <= i < out@.len() ==> cloned(vals[i], #[trigger] out@[i]),
        {
            proof {
                assert(vals[it.index() as int] == *h);
            }
            let c = h.clone();
            out.push(c);
        }
        proof {
            assert forall|i: int| 0 <= i < out@.len() implies is_clone_in(self@, #[trigger] out@[i]) by {
                assert(vals.to_set().contains(vals[i]));
                let k = choose|k: ShardId| self@.contains_key(k) && self@[k] == vals[i];
                assert(cloned(self@[k], out@[i]));
            }
            assert forall|k: ShardId| #[trigger] self@.contains_key(k) implies has_clone_of(out@, self@[k]) by {
                assert(self@.values().contains(self@[k]));
                assert(vals.to_set().contains(self@[k]));
                let i = choose|i: int| 0 <= i < vals.len() && vals[i] == self@[k];
                assert(cloned(self@[k], out@[i]));
            }
        }
        out
    }

    /// The handle of shard `shard_id`, if the set holds one.
    pub fn get(&self, shard_id: ShardId) -> (r: Option<H>)
        ensures
            r is Some <==> self@.contains_key(shard_id),
            r matches Some(h) ==> cloned(self@[shard_id], h),
    {
        broadcast use vstd::std_specs::hash::group_hash_axioms;
        self.inner.get(&shard_id).cloned()
    }

    /// Takes shard `shard_id` out of the set and returns its handle; returns
    /// none, changing nothing, when the set holds no such shard.
    pub fn remove(&mut self, shard_id: ShardId) -> (r: Option<H>)
        ensures
            final(self)@ == old(self)@.remove(shard_id),
            r is Some <==> old(self)@.contains_key(shard_id),
            r matches Some(h) ==> h == old(self)@[shard_id],
    {
        broadcast use vstd::std_specs::hash::group_hash_axioms;
        self.inner.remove(&shard_id)
    }

    /// Puts `shard` in the set under `shard_id` and returns the handle it
    /// replaced, if any.
    pub fn insert(&mut self, shard_id: ShardId, shard: H) -> (r: Option<H>)
        ensures
            final(self)@ == old(self)@.insert(shard_id, shard),
            r is Some <==> old(self)@.contains_key(shard_id),
            r matches Some(h) ==> h == old(self)@[shard_id],
    {
        broadcast use vstd::std_specs::hash::group_hash_axioms;
        self.inner.insert(shard_id, shard)
    }
}

} // verus!
