//! Lifecycle tracking for app and window features.
//!
//! A lifecycle records what a feature installs while it runs: cleanup
//! callbacks, event-bus subscriptions, loop handles ("anchors") and the
//! reference counters of actors it spawned. Shutting it down releases all of
//! them: the cleanups in reverse order of registration (last registered runs
//! first), then every subscription is cancelled, then the anchors are
//! dropped, and finally the actor counters are checked for leaks.
//!
//! The lifecycle itself decides the order; running a cleanup, cancelling a
//! subscription and reading a reference count are done by the caller with
//! the plan that `shutdown` hands back.

use vstd::prelude::*;

verus! {

/// Identifier of an event-bus subscription.
pub type SubscriptionId = u64;

/// What a lifecycle holds.
pub struct LifecycleView<C, A, K> {
    pub cleanups: Seq<C>,
    pub subs: Seq<SubscriptionId>,
    pub anchors: Seq<A>,
    pub actor_counters: Seq<K>,
}

/// A lifecycle that holds nothing.
pub open spec fn empty_lifecycle<C, A, K>() -> LifecycleView<C, A, K> {
    LifecycleView {
        cleanups: Seq::empty(),
        subs: Seq::empty(),
        anchors: Seq::empty(),
        actor_counters: Seq::empty(),
    }
}

/// What a shutdown releases, in the order it must be released.
pub struct ShutdownView<C, A, K> {
    pub cleanups: Seq<C>,
    pub unsubscribe: Seq<SubscriptionId>,
    pub anchors: Seq<A>,
    pub actor_counters: Seq<K>,
}

/// The plan of shutting down a lifecycle in state `v`: cleanups last-first,
/// subscriptions, anchors and counters in the order they were tracked.
pub open spec fn shutdown_plan<C, A, K>(v: LifecycleView<C, A, K>) -> ShutdownView<C, A, K> {
    ShutdownView {
        cleanups: v.cleanups.reverse(),
        unsubscribe: v.subs,
        anchors: v.anchors,
        actor_counters: v.actor_counters,
    }
}

/// Everything a shutdown hands back for the caller to release.
pub struct Shutdown<C, A, K> {
    /// Cleanup callbacks, in the order they must run.
    pub cleanups: Vec<C>,
    /// Subscriptions to cancel.
    pub unsubscribe: Vec<SubscriptionId>,
    /// Loop handles to drop once the subscriptions are cancelled.
    pub anchors: Vec<A>,
    /// Actor reference counters to check for leaks.
    pub actor_counters: Vec<K>,
}

impl<C, A, K> View for Shutdown<C, A, K> {
    type V = ShutdownView<C, A, K>;

    open spec fn view(&self) -> ShutdownView<C, A, K> {
        ShutdownView {
            cleanups: self.cleanups@,
            unsubscribe: self.unsubscribe@,
            anchors: self.anchors@,
            actor_counters: self.actor_counters@,
        }
    }
}

/// The part of a lifecycle that app and window lifecycles share.
struct LifecycleCore<A, K> {
    subs: Vec<SubscriptionId>,
    actor_counters: Vec<K>,
    anchors: Vec<A>,
}

impl<A, K> LifecycleCore<A, K> {
    fn new() -> (r: Self)
        ensures
            r.subs@ == Seq::<SubscriptionId>::empty(),
            r.actor_counters@ == Seq::<K>::empty(),
            r.anchors@ == Seq::<A>::empty(),
    {
        LifecycleCore { subs: Vec::new(), actor_counters: Vec::new(), anchors: Vec::new() }
    }

    fn track_loop(&mut self, handle: A)
        ensures
            final(self).anchors@ == old(self).anchors@.push(handle),
            final(self).subs@ == old(self).subs@,
            final(self).actor_counters@ == old(self).actor_counters@,
    {
        self.anchors.push(handle);
    }

    fn track_actor(&mut self, counter: K)
        ensures
            final(self).actor_counters@ == old(self).actor_counters@.push(counter),
            final(self).subs@ == old(self).subs@,
            final(self).anchors@ == old(self).anchors@,
    {
        self.actor_counters.push(counter);
    }

    fn track_sub(&mut self, id: SubscriptionId)
        ensures
            final(self).subs@ == old(self).subs@.push(id),
            final(self).actor_counters@ == old(self).actor_counters@,
            final(self).anchors@ == old(self).anchors@,
    {
        self.subs.push(id);
    }

    fn take_all(&mut self) -> (r: (Vec<SubscriptionId>, Vec<A>, Vec<K>))
        ensures
            r.0@ == old(self).subs@,
            r.1@ == old(self).anchors@,
            r.2@ == old(self).actor_counters@,
            final(self).subs@ == Seq::<SubscriptionId>::empty(),
            final(self).actor_counters@ == Seq::<K>::empty(),
            final(self).anchors@ == Seq::<A>::empty(),
    {
        let mut subs: Vec<SubscriptionId> = Vec::new();
        let mut anchors: Vec<A> = Vec::new();
        let mut counters: Vec<K> = Vec::new();
        std::mem::swap(&mut subs, &mut self.subs);
        std::mem::swap(&mut anchors, &mut self.anchors);
        std::mem::swap(&mut counters, &mut self.actor_counters);
        (subs, anchors, counters)
    }
}

/// The cleanups in `v`, last registered first.
fn reversed<C>(v: Vec<C>) -> (r: Vec<C>)
    ensures
        r@ == v@.reverse(),
{
    let ghost orig = v@;
    let mut v = v;
    let mut r: Vec<C> = Vec::new();
    while v.len() > 0
        invariant
            v@ == orig.subrange(0, v@.len() as int),
            r@ == orig.subrange(v@.len() as int, orig.len() as int).reverse(),
            v@.len() <= orig.len(),
        decreases v.len(),
    {
        let ghost n = v@.len();
        let c = v.pop().unwrap();
        r.push(c);
        assert(v@ =~= orig.subrange(0, v@.len() as int));
        assert(r@ =~= orig.subrange(v@.len() as int, orig.len() as int).reverse());
    }
    assert(orig.subrange(0, orig.len() as int) =~= orig);
    r
}

/// Extra references that keep an actor alive after its lifecycle ended:
/// the strong count minus the lifecycle's own reference, when above one.
pub fn leaked_references(strong_count: usize) -> (r: Option<usize>)
    ensures
        strong_count > 1 ==> r == Some((strong_count - 1) as usize),
        strong_count <= 1 ==> r is None,
{
    if strong_count > 1 {
        Some(strong_count - 1)
    } else {
        None
    }
}

/// An actor still alive after its lifecycle ended: its name and the number
/// of references that keep it alive.
pub struct LeakReport {
    pub actor: String,
    pub extra_refs: usize,
}

/// The leak reports for actors with the given names and strong counts, in
/// order: one for each actor whose count is above one.
pub open spec fn leaks_of(counts: Seq<(String, usize)>) -> Seq<(Seq<char>, usize)>
    decreases counts.len(),
{
    if counts.len() == 0 {
        Seq::empty()
    } else {
        let rest = leaks_of(counts.drop_last());
        let (name, count) = counts.last();
        if count > 1 {
            rest.push((name@, (count - 1) as usize))
        } else {
            rest
        }
    }
}

/// Leak reports for actors with the given names and strong counts.
pub fn leak_reports(counts: &Vec<(String, usize)>) -> (r: Vec<LeakReport>)
    ensures
        r@.map_values(|l: LeakReport| (l.actor@, l.extra_refs)) == leaks_of(counts@),
{
    let mut r: Vec<LeakReport> = Vec::new();
    let mut i: usize = 0;
    while i < counts.len()
        invariant
            i <= counts.len(),
            r@.map_values(|l: LeakReport| (l.actor@, l.extra_refs)) == leaks_of(counts@.take(i as int)),
        decreases counts.len() - i,
    {
        let ghost before = r@;
        assert(counts@.take(i + 1).drop_last() =~= counts@.take(i as int));
        match leaked_references(counts[i].1) {
            Some(extra) => {
                r.push(LeakReport { actor: counts[i].0.clone(), extra_refs: extra });
                assert(r@.map_values(|l: LeakReport| (l.actor@, l.extra_refs)) =~= before.map_values(
                    |l: LeakReport| (l.actor@, l.extra_refs),
                ).push((counts@[i as int].0@, extra)));
            },
            None => {},
        }
        i = i + 1;
    }
    assert(counts@.take(counts.len() as int) =~= counts@);
    r
}

/// Lifecycle of an app feature. `C` is the cleanup callback type, `A` the
/// loop-handle type and `K` the actor-counter type of the host.
pub struct AppLifecycle<C, A, K> {
    core: LifecycleCore<A, K>,
    cleanups: Vec<C>,
}

impl<C, A, K> View for AppLifecycle<C, A, K> {
    type V = LifecycleView<C, A, K>;

    closed spec fn view(&self) -> LifecycleView<C, A, K> {
        LifecycleView {
            cleanups: self.cleanups@,
            subs: self.core.subs@,
            anchors: self.core.anchors@,
            actor_counters: self.core.actor_counters@,
        }
    }
}

impl<C, A, K> AppLifecycle<C, A, K> {
    /// A lifecycle that tracks nothing yet.
    pub fn new() -> (r: Self)
        ensures
            r@ == empty_lifecycle::<C, A, K>(),
    {
        AppLifecycle { core: LifecycleCore::new(), cleanups: Vec::new() }
    }

    /// Registers a cleanup to run at shutdown.
    pub fn on_cleanup(&mut self, f: C)
        ensures
            final(self)@ == (LifecycleView { cleanups: old(self)@.cleanups.push(f), ..old(self)@ }),
    {
        self.cleanups.push(f);
    }

    /// Keeps a loop handle alive until shutdown.
    pub fn track_loop(&mut self, handle: A)
        ensures
            final(self)@ == (LifecycleView { anchors: old(self)@.anchors.push(handle), ..old(self)@ }),
    {
        self.core.track_loop(handle);
    }

    /// Records an actor's reference counter for the leak check at shutdown.
    pub fn track_actor(&mut self, counter: K)
        ensures
            final(self)@ == (LifecycleView {
                actor_counters: old(self)@.actor_counters.push(counter),
                ..old(self)@
            }),
    {
        self.core.track_actor(counter);
    }

    /// Records a subscription to cancel at shutdown.
    pub fn track_sub(&mut self, id: SubscriptionId)
        ensures
            final(self)@ == (LifecycleView { subs: old(self)@.subs.push(id), ..old(self)@ }),
    {
        self.core.track_sub(id);
    }

    /// Number of subscriptions still tracked.
    pub fn subscription_count(&self) -> (r: usize)
        ensures
            r == self@.subs.len(),
    {
        self.core.subs.len()
    }

    /// Empties the lifecycle and hands back what it held, in release order.
    pub fn shutdown(&mut self) -> (r: Shutdown<C, A, K>)
        ensures
            r@ == shutdown_plan(old(self)@),
            final(self)@ == empty_lifecycle::<C, A, K>(),
    {
        let mut cleanups: Vec<C> = Vec::new();
        std::mem::swap(&mut cleanups, &mut self.cleanups);
        let cleanups = reversed(cleanups);
        let (unsubscribe, anchors, actor_counters) = self.core.take_all();
        let r = Shutdown { cleanups, unsubscribe, anchors, actor_counters };
        assert(r@ == shutdown_plan(old(self)@));
        assert(self@ =~= empty_lifecycle::<C, A, K>());
        r
    }
}

/// Lifecycle of a window feature. `C` is the cleanup callback type, `A` the
/// loop-handle type and `K` the actor-counter type of the host.
pub struct WindowLifecycle<C, A, K> {
    core: LifecycleCore<A, K>,
    cleanups: Vec<C>,
}

impl<C, A, K> View for WindowLifecycle<C, A, K> {
    type V = LifecycleView<C, A, K>;

    closed spec fn view(&self) -> LifecycleView<C, A, K> {
        LifecycleView {
            cleanups: self.cleanups@,
            subs: self.core.subs@,
            anchors: self.core.anchors@,
            actor_counters: self.core.actor_counters@,
        }
    }
}

impl<C, A, K> WindowLifecycle<C, A, K> {
    /// A lifecycle that tracks nothing yet.
    pub fn new() -> (r: Self)
        ensures
            r@ == empty_lifecycle::<C, A, K>(),
    {
        WindowLifecycle { core: LifecycleCore::new(), cleanups: Vec::new() }
    }

    /// Registers a cleanup to run when the window closes.
    pub fn on_cleanup(&mut self, f: C)
        ensures
            final(self)@ == (LifecycleView { cleanups: old(self)@.cleanups.push(f), ..old(self)@ }),
    {
        self.cleanups.push(f);
    }

    /// Keeps a loop handle alive until the window closes.
    pub fn track_loop(&mut self, handle: A)
        ensures
            final(self)@ == (LifecycleView { anchors: old(self)@.anchors.push(handle), ..old(self)@ }),
    {
        self.core.track_loop(handle);
    }

    /// Records an actor's reference counter for the leak check at shutdown.
    pub fn track_actor(&mut self, counter: K)
        ensures
            final(self)@ == (LifecycleView {
                actor_counters: old(self)@.actor_counters.push(counter),
                ..old(self)@
            }),
    {
        self.core.track_actor(counter);
    }

    /// Records a subscription to cancel when the window closes.
    pub fn track_sub(&mut self, id: SubscriptionId)
        ensures
            final(self)@ == (LifecycleView { subs: old(self)@.subs.push(id), ..old(self)@ }),
    {
        self.core.track_sub(id);
    }

    /// Number of subscriptions still tracked.
    pub fn subscription_count(&self) -> (r: usize)
        ensures
            r == self@.subs.len(),
    {
        self.core.subs.len()
    }

    /// Empties the lifecycle and hands back what it held, in release order.
    pub fn shutdown(&mut self) -> (r: Shutdown<C, A, K>)
        ensures
            r@ == shutdown_plan(old(self)@),
            final(self)@ == empty_lifecycle::<C, A, K>(),
    {
        let mut cleanups: Vec<C> = Vec::new();
        std::mem::swap(&mut cleanups, &mut self.cleanups);
        let cleanups = reversed(cleanups);
        let (unsubscribe, anchors, actor_counters) = self.core.take_all();
        let r = Shutdown { cleanups, unsubscribe, anchors, actor_counters };
        assert(r@ == shutdown_plan(old(self)@));
        assert(self@ =~= empty_lifecycle::<C, A, K>());
        r
    }
}


/// The cleanup registered last runs first, before every cleanup registered
/// earlier (which keep their own last-first order).
pub proof fn law_last_registered_cleanup_runs_first<C, A, K>(v: LifecycleView<C, A, K>, c: C)
    ensures
        shutdown_plan(LifecycleView { cleanups: v.cleanups.push(c), ..v }).cleanups == seq![c]
            + shutdown_plan(v).cleanups,
{
    let pushed = v.cleanups.push(c);
    assert(pushed.reverse() =~= seq![c] + v.cleanups.reverse());
}

/// A shutdown releases everything: afterwards nothing is tracked, so a
/// second shutdown runs no cleanup, cancels no subscription and drops no
/// handle.
pub proof fn law_second_shutdown_releases_nothing<C, A, K>()
    ensures
        shutdown_plan(empty_lifecycle::<C, A, K>()).cleanups.len() == 0,
        shutdown_plan(empty_lifecycle::<C, A, K>()).unsubscribe.len() == 0,
        shutdown_plan(empty_lifecycle::<C, A, K>()).anchors.len() == 0,
        shutdown_plan(empty_lifecycle::<C, A, K>()).actor_counters.len() == 0,
{
}

/// Every registered cleanup runs exactly once: the plan holds the registered
/// cleanups, the same number of times each, only reordered.
pub proof fn law_every_cleanup_runs_once<C, A, K>(v: LifecycleView<C, A, K>)
    ensures
        shutdown_plan(v).cleanups.len() == v.cleanups.len(),
        forall|i: int| 0 <= i < v.cleanups.len() ==> #[trigger] shutdown_plan(v).cleanups[v.cleanups.len() - 1 - i] == v.cleanups[i],
{
}

} // verus!
