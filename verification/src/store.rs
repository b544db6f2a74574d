//! Entity store: the sole owner of widget state.
//!
//! Every stateful widget, and the gallery itself, lives in an
//! [`EntityStore`] behind a stable [`Handle`]. All reads and mutations go
//! through the store; a handle whose entity has been destroyed fails with
//! [`CoreError::NotFound`] instead of dangling.
//!
//! Each successful update flags the entity dirty. Dirty flags are a set:
//! several updates of one entity before the next render pass coalesce into
//! a single dirty notification that reflects the final value.

use vstd::prelude::*;

use crate::CoreError;

verus! {

/// Stable identifier of one entity of an [`EntityStore`].
///
/// A handle grants read and update access only through the owning store,
/// never direct ownership. Identifiers are never reused, so a handle to a
/// destroyed entity stays invalid forever.
#[derive(Clone, Copy, Debug, PartialEq, Eq, Structural)]
pub struct Handle {
    pub id: usize,
}

/// Owner of the mutable state of a set of entities.
///
/// Entities are addressed by the index at which they were created;
/// destroying one leaves its slot empty rather than reusing the index.
pub struct EntityStore<T> {
    slots: Vec<Option<T>>,
    dirty: Vec<bool>,
}

impl<T> EntityStore<T> {
    /// Internal consistency: one dirty flag per slot, and only live
    /// entities are ever dirty.
    pub closed spec fn wf(&self) -> bool {
        &&& self.dirty@.len() == self.slots@.len()
        &&& forall|i: int|
            0 <= i < self.dirty@.len() ==> (self.dirty@[i] ==> self.slots@[i] is Some)
    }

    /// How many identifiers have ever been handed out.
    pub closed spec fn slot_count(&self) -> nat {
        self.slots@.len()
    }

    /// Whether `h` refers to a live entity of this store.
    pub closed spec fn valid(&self, h: Handle) -> bool {
        h.id < self.slots@.len() && self.slots@[h.id as int] is Some
    }

    /// The value owned for `h`.
    pub closed spec fn value(&self, h: Handle) -> T
        recommends
            self.valid(h),
    {
        self.slots@[h.id as int].unwrap()
    }

    /// Whether `h` changed since the last render pass.
    pub closed spec fn is_dirty(&self, h: Handle) -> bool {
        h.id < self.dirty@.len() && self.dirty@[h.id as int]
    }

    /// A store owning nothing yet.
    pub fn new() -> (store: Self)
        ensures
            store.wf(),
            store.slot_count() == 0,
            forall|h: Handle| !store.valid(h),
            forall|h: Handle| !store.is_dirty(h),
    {
        EntityStore { slots: Vec::new(), dirty: Vec::new() }
    }

    /// Allocates ownership of `initial_value` and returns a fresh stable
    /// handle for it. Never fails. The new entity starts clean.
    pub fn create(&mut self, initial_value: T) -> (h: Handle)
        requires
            old(self).wf(),
        ensures
            final(self).wf(),
            h.id == old(self).slot_count(),
            final(self).slot_count() == old(self).slot_count() + 1,
            final(self).valid(h),
            final(self).value(h) == initial_value,
            !final(self).is_dirty(h),
            forall|h2: Handle| h2.id != h.id ==> final(self).valid(h2) == old(self).valid(h2),
            forall|h2: Handle|
                old(self).valid(h2) ==> final(self).valid(h2) && final(self).value(h2) == old(
                    self,
                ).value(h2),
            forall|h2: Handle| h2.id != h.id ==> final(self).is_dirty(h2) == old(self).is_dirty(
                h2,
            ),
    {
        let h = Handle { id: self.slots.len() };
        self.slots.push(Some(initial_value));
        self.dirty.push(false);
        h
    }

    /// Borrows the value owned for `h`, or reports `NotFound` when the
    /// entity was destroyed or the identifier is unknown.
    pub fn read(&self, h: Handle) -> (r: Result<&T, CoreError>)
        requires
            self.wf(),
        ensures
            self.valid(h) ==> (r matches Ok(v) && *v == self.value(h)),
            !self.valid(h) ==> (r matches Err(e) && e == CoreError::NotFound),
    {
        if h.id < self.slots.len() {
            match &self.slots[h.id] {
                Some(v) => Ok(v),
                None => Err(CoreError::NotFound),
            }
        } else {
            Err(CoreError::NotFound)
        }
    }

    /// Replaces the value owned for `h` and flags the entity dirty;
    /// reports `NotFound`, changing nothing, when `h` is stale. The update
    /// is atomic per call: it either fully applies or does nothing.
    pub fn update(&mut self, h: Handle, new_value: T) -> (r: Result<(), CoreError>)
        requires
            old(self).wf(),
        ensures
            final(self).wf(),
            r is Ok <==> old(self).valid(h),
            old(self).valid(h) ==> update_applied(*old(self), *final(self), h, new_value),
            !old(self).valid(h) ==> *final(self) == *old(self) && (r matches Err(e) && e
                == CoreError::NotFound),
    {
        if h.id >= self.slots.len() {
            return Err(CoreError::NotFound);
        }
        match &self.slots[h.id] {
            Some(_) => {}
            None => {
                return Err(CoreError::NotFound);
            }
        }
        self.slots.set(h.id, Some(new_value));
        self.dirty.set(h.id, true);
        Ok(())
    }

    /// Applies `mutator` to the value owned for `h` under exclusive
    /// access and flags the entity dirty; reports `NotFound`, changing
    /// nothing, when `h` is stale. Like [`EntityStore::update`], the call
    /// is atomic: the mutated value is fully in place when it returns.
    pub fn update_with<F: FnOnce(T) -> T>(&mut self, h: Handle, mutator: F) -> (r: Result<
        (),
        CoreError,
    >)
        requires
            old(self).wf(),
            old(self).valid(h) ==> call_requires(mutator, (old(self).value(h),)),
        ensures
            final(self).wf(),
            r is Ok <==> old(self).valid(h),
            old(self).valid(h) ==> call_ensures(
                mutator,
                (old(self).value(h),),
                final(self).value(h),
            ) && update_applied(*old(self), *final(self), h, final(self).value(h)),
            !old(self).valid(h) ==> *final(self) == *old(self) && (r matches Err(e) && e
                == CoreError::NotFound),
    {
        if h.id >= self.slots.len() {
            return Err(CoreError::NotFound);
        }
        match &self.slots[h.id] {
            Some(_) => {}
            None => {
                return Err(CoreError::NotFound);
            },
        }
        let ghost snapshot = self.slots@;
        let slot = self.slots.remove(h.id);
        let mutated = mutator(slot.unwrap());
        self.slots.insert(h.id, Some(mutated));
        self.dirty.set(h.id, true);
        proof {
            assert(self.slots@ =~= snapshot.update(h.id as int, self.slots@[h.id as int]));
        }
        Ok(())
    }

    /// Releases the entity behind `h`; the identifier is never reused.
    /// Safe to repeat: destroying an already-dead handle does nothing and
    /// returns `false`.
    pub fn destroy(&mut self, h: Handle) -> (was_live: bool)
        requires
            old(self).wf(),
        ensures
            final(self).wf(),
            was_live == old(self).valid(h),
            !final(self).valid(h),
            !final(self).is_dirty(h),
            final(self).slot_count() == old(self).slot_count(),
            forall|h2: Handle| h2.id != h.id ==> final(self).valid(h2) == old(self).valid(h2),
            forall|h2: Handle|
                h2.id != h.id && old(self).valid(h2) ==> final(self).value(h2) == old(self).value(
                    h2,
                ),
            forall|h2: Handle| h2.id != h.id ==> final(self).is_dirty(h2) == old(self).is_dirty(
                h2,
            ),
    {
        if h.id >= self.slots.len() {
            return false;
        }
        let was_live = match &self.slots[h.id] {
            Some(_) => true,
            None => false,
        };
        self.slots.set(h.id, None);
        self.dirty.set(h.id, false);
        was_live
    }

    /// Whether `h` refers to a live entity.
    pub fn is_live(&self, h: Handle) -> (live: bool)
        requires
            self.wf(),
        ensures
            live == self.valid(h),
    {
        if h.id < self.slots.len() {
            match &self.slots[h.id] {
                Some(_) => true,
                None => false,
            }
        } else {
            false
        }
    }

    /// Whether `h` changed since the last render pass.
    pub fn is_flagged_dirty(&self, h: Handle) -> (flagged: bool)
        requires
            self.wf(),
        ensures
            flagged == self.is_dirty(h),
    {
        if h.id < self.dirty.len() { self.dirty[h.id] } else { false }
    }

    /// The handles of all entities that changed since the last render
    /// pass, in creation order. Each dirty entity appears exactly once
    /// (the identifiers are strictly increasing), so a render pass sees
    /// one notification per entity however many updates coalesced into it.
    pub fn dirty_handles(&self) -> (hs: Vec<Handle>)
        requires
            self.wf(),
        ensures
            forall|h: Handle| hs@.contains(h) <==> self.is_dirty(h),
            forall|a: int, b: int| 0 <= a < b < hs@.len() ==> hs@[a].id < hs@[b].id,
            forall|k: int| 0 <= k < hs@.len() ==> self.valid(#[trigger] hs@[k]),
    {
        let mut hs: Vec<Handle> = Vec::new();
        let n = self.dirty.len();
        let mut i: usize = 0;
        while i < n
            invariant
                self.wf(),
                n == self.dirty@.len(),
                i <= n,
                forall|k: int| 0 <= k < hs@.len() ==> (#[trigger] hs@[k]).id < i,
                forall|k: int| 0 <= k < hs@.len() ==> self.is_dirty(#[trigger] hs@[k]),
                forall|h: Handle| h.id < i && self.is_dirty(h) ==> hs@.contains(h),
                forall|a: int, b: int| 0 <= a < b < hs@.len() ==> hs@[a].id < hs@[b].id,
            decreases n - i,
        {
            if self.dirty[i] {
                let h = Handle { id: i };
                let ghost pre = hs@;
                hs.push(h);
                proof {
                    assert forall|h2: Handle|
                        h2.id < i + 1 && self.is_dirty(h2) implies hs@.contains(h2) by {
                        if h2.id < i {
                            let k = choose|k: int| 0 <= k < pre.len() && pre[k] == h2;
                            assert(hs@[k] == h2);
                        } else {
                            assert(h2 == h);
                            assert(hs@[hs@.len() - 1] == h);
                        }
                    }
                }
            }
            i += 1;
        }
        proof {
            assert forall|h: Handle| hs@.contains(h) implies self.is_dirty(h) by {
                let k = choose|k: int| 0 <= k < hs@.len() && hs@[k] == h;
            }
        }
        hs
    }

    /// A handle can only be live within the identifiers handed out.
    pub proof fn lemma_valid_in_range(&self, h: Handle)
        ensures
            self.valid(h) ==> h.id < self.slot_count(),
    {
    }

    /// A handle can only be dirty within the identifiers handed out.
    pub proof fn lemma_dirty_in_range(&self, h: Handle)
        requires
            self.wf(),
        ensures
            self.is_dirty(h) ==> h.id < self.slot_count(),
    {
    }

    /// Clears every dirty flag; values and liveness are untouched. A
    /// render pass calls this after collecting the dirty set, so updates
    /// arriving before the next pass are reported afresh.
    pub fn clear_dirty(&mut self)
        requires
            old(self).wf(),
        ensures
            final(self).wf(),
            final(self).slot_count() == old(self).slot_count(),
            forall|h: Handle| final(self).valid(h) == old(self).valid(h),
            forall|h: Handle| old(self).valid(h) ==> final(self).value(h) == old(self).value(h),
            forall|h: Handle| !final(self).is_dirty(h),
    {
        let ghost snapshot = *self;
        let n = self.dirty.len();
        let mut i: usize = 0;
        while i < n
            invariant
                n == self.dirty@.len(),
                i <= n,
                self.slots@ == snapshot.slots@,
                forall|k: int| 0 <= k < i ==> !self.dirty@[k],
                forall|k: int| i <= k < n ==> self.dirty@[k] == snapshot.dirty@[k],
            decreases n - i,
        {
            self.dirty.set(i, false);
            i += 1;
        }
    }
}

/// What one successful [`EntityStore::update`] call does: `post` owns `v`
/// for `h`, `h` is flagged dirty, and every other entity keeps its value,
/// liveness and dirty state from `pre`.
pub open spec fn update_applied<T>(
    pre: EntityStore<T>,
    post: EntityStore<T>,
    h: Handle,
    v: T,
) -> bool {
    &&& post.wf()
    &&& post.slot_count() == pre.slot_count()
    &&& post.valid(h)
    &&& post.value(h) == v
    &&& post.is_dirty(h)
    &&& forall|h2: Handle| h2.id != h.id ==> post.valid(h2) == pre.valid(h2)
    &&& forall|h2: Handle|
        h2.id != h.id && pre.valid(h2) ==> post.value(h2) == pre.value(h2)
    &&& forall|h2: Handle| h2.id != h.id ==> post.is_dirty(h2) == pre.is_dirty(h2)
}

/// Updates coalesce: after two updates of the same handle with no render
/// pass in between, the entity is dirty once with the second value, and no
/// other entity's value or dirty state has moved.
pub proof fn lemma_update_coalesces<T>(
    s0: EntityStore<T>,
    s1: EntityStore<T>,
    s2: EntityStore<T>,
    h: Handle,
    v1: T,
    v2: T,
)
    requires
        update_applied(s0, s1, h, v1),
        update_applied(s1, s2, h, v2),
    ensures
        s2.valid(h),
        s2.value(h) == v2,
        s2.is_dirty(h),
        forall|h2: Handle| h2.id != h.id ==> s2.valid(h2) == s0.valid(h2),
        forall|h2: Handle|
            h2.id != h.id && s0.valid(h2) ==> s2.value(h2) == s0.value(h2),
        forall|h2: Handle| h2.id != h.id ==> s2.is_dirty(h2) == s0.is_dirty(h2),
{
}

} // verus!
