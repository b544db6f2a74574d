//! Subscription router: event delivery in registration order.
//!
//! A holder registers interest in the change events of a source entity by
//! [`SubscriptionRouter::subscribe`], naming an owner. When the source
//! emits, the router hands back the registered callbacks in registration
//! order; the caller invokes them one by one after the list is fixed, so a
//! callback that triggers further updates can never re-enter the same
//! emission pass. Dropping an owner removes every subscription it
//! registered with [`SubscriptionRouter::unsubscribe_all`].
//!
//! Callbacks are plain values (`C` is typically a small enum the
//! subscriber interprets); the router never runs them itself.

use vstd::prelude::*;

use crate::store::Handle;

verus! {

/// Identifier of one registration, unique within its router.
#[derive(Clone, Copy, Debug, PartialEq, Eq, Structural)]
pub struct SubscriptionId {
    pub id: u64,
}

/// One registered interest: `owner` observes the change events of
/// `source` and wants `callback` delivered for each emission.
#[derive(Clone, Copy, Debug)]
pub struct Subscription<C> {
    pub id: u64,
    pub source: Handle,
    pub owner: u64,
    pub callback: C,
}

/// The callbacks that an emission on `source` delivers, given the
/// registered subscriptions: those subscribed to `source`, in registration
/// order.
pub open spec fn delivery_order<C>(subs: Seq<Subscription<C>>, source: Handle) -> Seq<C>
    decreases subs.len(),
{
    if subs.len() == 0 {
        Seq::empty()
    } else {
        let rest = delivery_order(subs.drop_last(), source);
        if subs.last().source == source {
            rest.push(subs.last().callback)
        } else {
            rest
        }
    }
}

/// The subscriptions that survive removing every registration of `owner`,
/// keeping their relative order.
pub open spec fn retained<C>(subs: Seq<Subscription<C>>, owner: u64) -> Seq<Subscription<C>>
    decreases subs.len(),
{
    if subs.len() == 0 {
        Seq::empty()
    } else {
        let rest = retained(subs.drop_last(), owner);
        if subs.last().owner != owner {
            rest.push(subs.last())
        } else {
            rest
        }
    }
}

/// What one [`SubscriptionRouter::subscribe`] call does: the new
/// registration is appended after every existing one and gets the next
/// identifier.
pub open spec fn subscribed<C>(
    pre: SubscriptionRouter<C>,
    post: SubscriptionRouter<C>,
    source: Handle,
    owner: u64,
    callback: C,
    sid: SubscriptionId,
) -> bool {
    &&& post.wf()
    &&& sid.id == pre.next_sub_id()
    &&& post.subscriptions() == pre.subscriptions().push(
        (Subscription { id: sid.id, source, owner, callback }),
    )
    &&& post.next_sub_id() == pre.next_sub_id() + 1
}

/// Registers interest and dispatches emissions.
pub struct SubscriptionRouter<C> {
    subs: Vec<Subscription<C>>,
    next_id: u64,
}

impl<C> SubscriptionRouter<C> {
    /// The registrations, in registration order.
    pub closed spec fn subscriptions(&self) -> Seq<Subscription<C>> {
        self.subs@
    }

    /// The identifier the next registration will get.
    pub closed spec fn next_sub_id(&self) -> int {
        self.next_id as int
    }

    /// Identifiers grow strictly along the registration order and stay
    /// below the next one to be handed out.
    pub closed spec fn wf(&self) -> bool {
        &&& forall|a: int, b: int|
            0 <= a < b < self.subs@.len() ==> self.subs@[a].id < self.subs@[b].id
        &&& forall|k: int| 0 <= k < self.subs@.len() ==> (#[trigger] self.subs@[k]).id
            < self.next_id
    }
}

impl<C: Copy> SubscriptionRouter<C> {
    /// A router with no registrations.
    pub fn new() -> (router: Self)
        ensures
            router.wf(),
            router.subscriptions().len() == 0,
            router.next_sub_id() == 0,
    {
        SubscriptionRouter { subs: Vec::new(), next_id: 0 }
    }

    /// Registers `callback` for the change events of `source`, on behalf
    /// of `owner`. The new subscription is delivered after every earlier
    /// one on the same source.
    pub fn subscribe(&mut self, source: Handle, owner: u64, callback: C) -> (sid: SubscriptionId)
        requires
            old(self).wf(),
            old(self).next_sub_id() < u64::MAX,
        ensures
            subscribed(*old(self), *final(self), source, owner, callback, sid),
    {
        let sid = SubscriptionId { id: self.next_id };
        self.subs.push(Subscription { id: self.next_id, source, owner, callback });
        self.next_id = self.next_id + 1;
        sid
    }

    /// The callbacks to invoke for one emission on `source`, in
    /// registration order. The list is fixed before any callback runs, so
    /// updates triggered by a callback are deferred past the current
    /// emission pass by construction.
    pub fn emit(&self, source: Handle) -> (callbacks: Vec<C>)
        requires
            self.wf(),
        ensures
            callbacks@ == delivery_order(self.subscriptions(), source),
    {
        let mut callbacks: Vec<C> = Vec::new();
        let n = self.subs.len();
        let mut i: usize = 0;
        while i < n
            invariant
                n == self.subs@.len(),
                i <= n,
                callbacks@ == delivery_order(self.subs@.take(i as int), source),
            decreases n - i,
        {
            let s = &self.subs[i];
            if s.source == source {
                callbacks.push(s.callback);
            }
            proof {
                let taken = self.subs@.take(i + 1);
                assert(taken.drop_last() =~= self.subs@.take(i as int));
                assert(taken.last() == self.subs@[i as int]);
            }
            i += 1;
        }
        proof {
            assert(self.subs@.take(n as int) =~= self.subs@);
        }
        callbacks
    }

    /// Removes every subscription registered by `owner`, keeping the rest
    /// in order. Idempotent: a second call with the same owner finds
    /// nothing left to remove (see [`lemma_unsubscribe_all_idempotent`]).
    pub fn unsubscribe_all(&mut self, owner: u64)
        requires
            old(self).wf(),
        ensures
            final(self).wf(),
            final(self).subscriptions() == retained(old(self).subscriptions(), owner),
            final(self).next_sub_id() == old(self).next_sub_id(),
    {
        let mut kept: Vec<Subscription<C>> = Vec::new();
        let n = self.subs.len();
        let mut i: usize = 0;
        while i < n
            invariant
                n == self.subs@.len(),
                i <= n,
                kept@ == retained(self.subs@.take(i as int), owner),
            decreases n - i,
        {
            let s = &self.subs[i];
            if s.owner != owner {
                kept.push(*s);
            }
            proof {
                let taken = self.subs@.take(i + 1);
                assert(taken.drop_last() =~= self.subs@.take(i as int));
                assert(taken.last() == self.subs@[i as int]);
            }
            i += 1;
        }
        proof {
            assert(self.subs@.take(n as int) =~= self.subs@);
            lemma_retained_sorted(self.subs@, owner, self.next_id as int);
        }
        self.subs = kept;
    }
}

/// Removing an owner's subscriptions keeps the identifier order intact.
proof fn lemma_retained_sorted<C>(subs: Seq<Subscription<C>>, owner: u64, bound: int)
    requires
        forall|a: int, b: int| 0 <= a < b < subs.len() ==> subs[a].id < subs[b].id,
        forall|k: int| 0 <= k < subs.len() ==> (#[trigger] subs[k]).id < bound,
    ensures
        forall|a: int, b: int|
            0 <= a < b < retained(subs, owner).len() ==> retained(subs, owner)[a].id < retained(
                subs,
                owner,
            )[b].id,
        forall|k: int|
            0 <= k < retained(subs, owner).len() ==> (#[trigger] retained(subs, owner)[k]).id
                < bound,
    decreases subs.len(),
{
    if subs.len() > 0 {
        let rest = retained(subs.drop_last(), owner);
        lemma_retained_sorted(subs.drop_last(), owner, subs.last().id as int);
        assert(subs[subs.len() - 1] == subs.last());
        assert(subs.last().id < bound);
        assert forall|k: int| 0 <= k < rest.len() implies (#[trigger] rest[k]).id < bound by {
            assert(rest[k].id < subs.last().id);
        }
        if subs.last().owner != owner {
            assert(retained(subs, owner) == rest.push(subs.last()));
        } else {
            assert(retained(subs, owner) == rest);
        }
    }
}

/// No subscription of `owner` survives its removal.
proof fn lemma_retained_excludes<C>(subs: Seq<Subscription<C>>, owner: u64)
    ensures
        forall|k: int|
            0 <= k < retained(subs, owner).len() ==> (#[trigger] retained(subs, owner)[k]).owner
                != owner,
    decreases subs.len(),
{
    if subs.len() > 0 {
        let rest = retained(subs.drop_last(), owner);
        lemma_retained_excludes(subs.drop_last(), owner);
        if subs.last().owner != owner {
            assert(retained(subs, owner) == rest.push(subs.last()));
        } else {
            assert(retained(subs, owner) == rest);
        }
    }
}

/// Removing an owner that holds no subscription changes nothing.
proof fn lemma_retained_all_kept<C>(subs: Seq<Subscription<C>>, owner: u64)
    requires
        forall|k: int| 0 <= k < subs.len() ==> (#[trigger] subs[k]).owner != owner,
    ensures
        retained(subs, owner) == subs,
    decreases subs.len(),
{
    if subs.len() > 0 {
        lemma_retained_all_kept(subs.drop_last(), owner);
        assert(retained(subs, owner) =~= subs);
    }
}

/// Removing an owner's subscriptions twice is the same as removing them
/// once: the removal is idempotent.
pub proof fn lemma_unsubscribe_all_idempotent<C>(subs: Seq<Subscription<C>>, owner: u64)
    ensures
        retained(retained(subs, owner), owner) == retained(subs, owner),
{
    lemma_retained_excludes(subs, owner);
    lemma_retained_all_kept(retained(subs, owner), owner);
}

/// When every subscription belongs to `owner`, removing that owner leaves
/// none, and a subsequent emission on any source delivers no callback.
pub proof fn lemma_unsubscribe_all_silences<C>(
    subs: Seq<Subscription<C>>,
    owner: u64,
    source: Handle,
)
    requires
        forall|k: int| 0 <= k < subs.len() ==> (#[trigger] subs[k]).owner == owner,
    ensures
        retained(subs, owner).len() == 0,
        delivery_order(retained(subs, owner), source).len() == 0,
    decreases subs.len(),
{
    if subs.len() > 0 {
        lemma_unsubscribe_all_silences(subs.drop_last(), owner, source);
    }
}

/// Delivery order follows registration order: after registering `a`, `b`
/// and `c` on one source, in that order, a single emission on that source
/// delivers exactly the callbacks registered before them, then `a`, then
/// `b`, then `c`. On a fresh router the delivery is exactly `a, b, c`.
pub proof fn lemma_delivery_in_registration_order<C>(
    r0: SubscriptionRouter<C>,
    r1: SubscriptionRouter<C>,
    r2: SubscriptionRouter<C>,
    r3: SubscriptionRouter<C>,
    source: Handle,
    owner_a: u64,
    owner_b: u64,
    owner_c: u64,
    a: C,
    b: C,
    c: C,
    sid_a: SubscriptionId,
    sid_b: SubscriptionId,
    sid_c: SubscriptionId,
)
    requires
        subscribed(r0, r1, source, owner_a, a, sid_a),
        subscribed(r1, r2, source, owner_b, b, sid_b),
        subscribed(r2, r3, source, owner_c, c, sid_c),
    ensures
        delivery_order(r3.subscriptions(), source) == delivery_order(r0.subscriptions(), source)
            + seq![a, b, c],
        r0.subscriptions().len() == 0 ==> delivery_order(r3.subscriptions(), source) == seq![
            a,
            b,
            c,
        ],
{
    let s0 = r0.subscriptions();
    let s1 = r1.subscriptions();
    let s2 = r2.subscriptions();
    let s3 = r3.subscriptions();
    assert(s1.drop_last() =~= s0);
    assert(s2.drop_last() =~= s1);
    assert(s3.drop_last() =~= s2);
    assert(delivery_order(s1, source) =~= delivery_order(s0, source).push(a));
    assert(delivery_order(s2, source) =~= delivery_order(s1, source).push(b));
    assert(delivery_order(s3, source) =~= delivery_order(s2, source).push(c));
    assert(delivery_order(s3, source) =~= delivery_order(s0, source) + seq![a, b, c]);
    if s0.len() == 0 {
        assert(delivery_order(s0, source) =~= Seq::<C>::empty());
        assert(delivery_order(s3, source) =~= seq![a, b, c]);
    }
}

} // verus!
