//! The surface registry.
//!
//! The registry maps the identity of a live protocol object to the opaque
//! surface id the consumer chose for it. Protocol object identities are
//! reused by the connection once an object is destroyed, so a mapping must be
//! forgotten synchronously on destruction, and an attempt to register an
//! identity that is already present is a client/compositor desynchronization:
//! it is reported as an error, never silently overwritten.

use vstd::prelude::*;
use crate::ids::{Id, ObjectId};

verus! {

/// An error raised by [`Registry::register`].
#[derive(Debug, Clone, Copy, PartialEq, Eq, Structural)]
pub enum RegistryError {
    /// The protocol object identity is already registered.
    Collision,
}

/// One registry entry.
#[derive(Debug, Clone, Copy, PartialEq, Eq, Structural)]
pub struct RegistryEntry {
    pub protocol_id: ObjectId,
    pub surface_id: Id,
}

/// The map held by a sequence of registry entries, later entries winning.
pub open spec fn entries_map(s: Seq<RegistryEntry>) -> Map<ObjectId, Id>
    decreases s.len(),
{
    if s.len() == 0 {
        Map::empty()
    } else {
        entries_map(s.drop_last()).insert(s.last().protocol_id, s.last().surface_id)
    }
}

/// The map of a sequence of entries contains exactly the protocol ids of the
/// entries.
pub proof fn lemma_entries_map_dom(s: Seq<RegistryEntry>)
    ensures
        forall|p: ObjectId|
            entries_map(s).dom().contains(p) <==> exists|i: int|
                0 <= i < s.len() && (#[trigger] s[i]).protocol_id == p,
    decreases s.len(),
{
    if s.len() > 0 {
        lemma_entries_map_dom(s.drop_last());
        assert forall|p: ObjectId| entries_map(s).dom().contains(p) implies exists|i: int|
            0 <= i < s.len() && (#[trigger] s[i]).protocol_id == p by {
            if p == s.last().protocol_id {
                assert(s[s.len() - 1].protocol_id == p);
            } else {
                assert(entries_map(s.drop_last()).dom().contains(p));
                let i = choose|i: int|
                    0 <= i < s.drop_last().len() && (#[trigger] s.drop_last()[i]).protocol_id == p;
                assert(s[i].protocol_id == p);
            }
        }
        assert forall|p: ObjectId|
            (exists|i: int| 0 <= i < s.len() && (#[trigger] s[i]).protocol_id == p) implies
            entries_map(s).dom().contains(p) by {
            let i = choose|i: int| 0 <= i < s.len() && (#[trigger] s[i]).protocol_id == p;
            if i < s.len() - 1 {
                assert(s.drop_last()[i].protocol_id == p);
                assert(entries_map(s.drop_last()).dom().contains(p));
            } else {
                assert(p == s.last().protocol_id);
            }
        }
    }
}

/// In a sequence with pairwise distinct protocol ids, the map sends each
/// entry's protocol id to that entry's surface id.
pub proof fn lemma_entries_map_at(s: Seq<RegistryEntry>, i: int)
    requires
        forall|a: int, b: int| 0 <= a < b < s.len() ==> s[a].protocol_id != s[b].protocol_id,
        0 <= i < s.len(),
    ensures
        entries_map(s).dom().contains(s[i].protocol_id),
        entries_map(s)[s[i].protocol_id] == s[i].surface_id,
    decreases s.len(),
{
    if i == s.len() - 1 {
    } else {
        lemma_entries_map_at(s.drop_last(), i);
        assert(s.drop_last()[i] == s[i]);
    }
}

/// Removing the entry at `i` from a sequence with distinct protocol ids
/// removes exactly that protocol id from the map.
pub proof fn lemma_entries_map_remove(s: Seq<RegistryEntry>, i: int)
    requires
        forall|a: int, b: int| 0 <= a < b < s.len() ==> s[a].protocol_id != s[b].protocol_id,
        0 <= i < s.len(),
    ensures
        entries_map(s.remove(i)) == entries_map(s).remove(s[i].protocol_id),
    decreases s.len(),
{
    lemma_entries_map_dom(s.drop_last());
    if i == s.len() - 1 {
        assert(s.remove(i) =~= s.drop_last());
        assert(!entries_map(s.drop_last()).dom().contains(s[i].protocol_id));
        assert(entries_map(s.drop_last()).remove(s[i].protocol_id) =~= entries_map(
            s.drop_last(),
        ));
    } else {
        lemma_entries_map_remove(s.drop_last(), i);
        assert(s.remove(i).drop_last() =~= s.drop_last().remove(i));
        assert(s.remove(i).last() == s.last());
        assert(entries_map(s.remove(i)) == entries_map(s.drop_last().remove(i)).insert(
            s.last().protocol_id,
            s.last().surface_id,
        ));
        assert(s.drop_last()[i] == s[i]);
        assert(entries_map(s.remove(i)) == entries_map(s.drop_last()).remove(
            s[i].protocol_id,
        ).insert(s.last().protocol_id, s.last().surface_id));
        assert(s[i].protocol_id != s.last().protocol_id);
        assert(entries_map(s.drop_last()).remove(s[i].protocol_id).insert(
            s.last().protocol_id,
            s.last().surface_id,
        ) =~= entries_map(s).remove(s[i].protocol_id));
    }
}

/// A mapping from protocol object identity to surface id.
///
/// Only the dispatch thread mutates a registry; the consumer sees surface
/// ids only through notifications.
#[derive(Debug)]
pub struct Registry {
    pub entries: Vec<RegistryEntry>,
}

impl View for Registry {
    type V = Map<ObjectId, Id>;

    /// A registry is viewed as the finite map of its entries.
    open spec fn view(&self) -> Map<ObjectId, Id> {
        entries_map(self.entries@)
    }
}

impl Registry {
    /// The entries hold each protocol identity at most once, so the map view
    /// loses nothing.
    pub open spec fn wf(&self) -> bool {
        forall|i: int, j: int|
            0 <= i < j < self.entries@.len() ==> self.entries@[i].protocol_id
                != self.entries@[j].protocol_id
    }

    /// What [`Registry::resolve`] returns.
    pub open spec fn spec_resolve(&self, protocol_id: ObjectId) -> Option<Id> {
        if self@.dom().contains(protocol_id) {
            Some(self@[protocol_id])
        } else {
            None
        }
    }

    /// An empty registry.
    pub fn new() -> (r: Registry)
        ensures
            r.wf(),
            r.entries@ == Seq::<RegistryEntry>::empty(),
            r@ == Map::<ObjectId, Id>::empty(),
    {
        Registry { entries: Vec::new() }
    }

    /// Finds the index of `protocol_id` among the entries.
    fn find(&self, protocol_id: ObjectId) -> (r: Option<usize>)
        requires
            self.wf(),
        ensures
            match r {
                Some(i) => i < self.entries@.len() && self.entries@[i as int].protocol_id
                    == protocol_id && self@.dom().contains(protocol_id),
                None => !self@.dom().contains(protocol_id),
            },
    {
        proof {
            lemma_entries_map_dom(self.entries@);
        }
        let mut i: usize = 0;
        while i < self.entries.len()
            invariant
                i <= self.entries@.len(),
                forall|j: int| 0 <= j < i ==> self.entries@[j].protocol_id != protocol_id,
            decreases self.entries@.len() - i,
        {
            if self.entries[i].protocol_id == protocol_id {
                proof {
                    lemma_entries_map_dom(self.entries@);
                }
                return Some(i);
            }
            i += 1;
        }
        proof {
            lemma_entries_map_dom(self.entries@);
        }
        None
    }

    /// Looks up the surface id registered for `protocol_id`.
    pub fn resolve(&self, protocol_id: ObjectId) -> (r: Option<Id>)
        requires
            self.wf(),
        ensures
            r == self.spec_resolve(protocol_id),
    {
        match self.find(protocol_id) {
            Some(i) => {
                let e = self.entries[i];
                proof {
                    lemma_entries_map_at(self.entries@, i as int);
                }
                Some(e.surface_id)
            }
            None => None,
        }
    }

    /// Registers `surface_id` under `protocol_id`.
    ///
    /// Fails, leaving the registry unchanged, when `protocol_id` is already
    /// present: protocol identities are reused, so an overwrite would hide a
    /// desynchronization.
    pub fn register(&mut self, protocol_id: ObjectId, surface_id: Id) -> (r: Result<
        (),
        RegistryError,
    >)
        requires
            old(self).wf(),
        ensures
            final(self).wf(),
            match r {
                Ok(()) => !old(self)@.dom().contains(protocol_id)
                    && final(self)@ == old(self)@.insert(protocol_id, surface_id)
                    && final(self).entries@ == old(self).entries@.push(
                    RegistryEntry { protocol_id, surface_id },
                ),
                Err(RegistryError::Collision) => old(self)@.dom().contains(protocol_id)
                    && final(self)@ == old(self)@ && final(self).entries@ == old(self).entries@,
            },
    {
        match self.find(protocol_id) {
            Some(_) => Err(RegistryError::Collision),
            None => {
                proof {
                    lemma_entries_map_dom(self.entries@);
                }
                self.entries.push(RegistryEntry { protocol_id, surface_id });
                proof {
                    assert(self.entries@.drop_last() =~= old(self).entries@);
                    assert(forall|j: int|
                        0 <= j < old(self).entries@.len() ==> self.entries@[j] == old(
                            self,
                        ).entries@[j]);
                }
                Ok(())
            }
        }
    }

    /// Removes and returns the mapping for `protocol_id`, if any.
    pub fn forget(&mut self, protocol_id: ObjectId) -> (r: Option<Id>)
        requires
            old(self).wf(),
        ensures
            final(self).wf(),
            r == old(self).spec_resolve(protocol_id),
            final(self)@ == old(self)@.remove(protocol_id),
            forall|j: int|
                0 <= j < final(self).entries@.len() ==> exists|k: int|
                    0 <= k < old(self).entries@.len() && old(self).entries@[k] == (
                    #[trigger] final(self).entries@[j]),
    {
        match self.find(protocol_id) {
            Some(i) => {
                proof {
                    lemma_entries_map_at(self.entries@, i as int);
                    lemma_entries_map_remove(self.entries@, i as int);
                }
                let e = self.entries.remove(i);
                proof {
                    assert(forall|a: int, b: int|
                        0 <= a < b < self.entries@.len() ==> self.entries@[a].protocol_id
                            != self.entries@[b].protocol_id);
                }
                Some(e.surface_id)
            }
            None => {
                proof {
                    assert(self@.remove(protocol_id) =~= self@);
                }
                None
            }
        }
    }
}

/// One registry operation, for stating how a whole run of operations treats a
/// mapping.
pub enum RegistryOp {
    Register(ObjectId, Id),
    Forget(ObjectId),
}

/// The map produced by applying `op` to `m`: a register of a key already
/// present changes nothing, as [`Registry::register`] ensures.
pub open spec fn registry_op_apply(m: Map<ObjectId, Id>, op: RegistryOp) -> Map<ObjectId, Id> {
    match op {
        RegistryOp::Register(p, s) => if m.dom().contains(p) {
            m
        } else {
            m.insert(p, s)
        },
        RegistryOp::Forget(p) => m.remove(p),
    }
}

/// The map produced by a run of operations, first operation first.
pub open spec fn registry_run(m: Map<ObjectId, Id>, ops: Seq<RegistryOp>) -> Map<ObjectId, Id>
    decreases ops.len(),
{
    if ops.len() == 0 {
        m
    } else {
        registry_run(registry_op_apply(m, ops[0]), ops.drop_first())
    }
}

/// Whether `op` drops the mapping of `p`: only forgetting `p` can.
pub open spec fn op_forgets(op: RegistryOp, p: ObjectId) -> bool {
    match op {
        RegistryOp::Forget(q) => q == p,
        RegistryOp::Register(_, _) => false,
    }
}

/// Once `protocol_id` is registered to `surface_id`, every later operation
/// short of forgetting `protocol_id` leaves that mapping in place: a resolve
/// keeps returning the same surface id until the mapping is forgotten.
pub proof fn lemma_registry_mapping_stable(
    m: Map<ObjectId, Id>,
    ops: Seq<RegistryOp>,
    protocol_id: ObjectId,
    surface_id: Id,
)
    requires
        m.dom().contains(protocol_id),
        m[protocol_id] == surface_id,
        forall|i: int| 0 <= i < ops.len() ==> !op_forgets(#[trigger] ops[i], protocol_id),
    ensures
        registry_run(m, ops).dom().contains(protocol_id),
        registry_run(m, ops)[protocol_id] == surface_id,
    decreases ops.len(),
{
    if ops.len() > 0 {
        let m1 = registry_op_apply(m, ops[0]);
        assert(m1.dom().contains(protocol_id) && m1[protocol_id] == surface_id);
        lemma_registry_mapping_stable(m1, ops.drop_first(), protocol_id, surface_id);
    }
}

/// After `protocol_id` is forgotten it resolves to nothing, and a new
/// register of the same identity installs whatever surface id that register
/// carries, independent of the old one.
pub proof fn lemma_registry_forget_then_reuse(
    m: Map<ObjectId, Id>,
    protocol_id: ObjectId,
    new_surface_id: Id,
)
    ensures
        !registry_op_apply(m, RegistryOp::Forget(protocol_id)).dom().contains(protocol_id),
        registry_op_apply(
            registry_op_apply(m, RegistryOp::Forget(protocol_id)),
            RegistryOp::Register(protocol_id, new_surface_id),
        )[protocol_id] == new_surface_id,
{
}

} // verus!
