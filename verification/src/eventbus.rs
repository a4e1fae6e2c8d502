//! The event bus: handlers subscribe to an event type and are handed every
//! published event of that type, in the order they subscribed.
use vstd::prelude::*;
use crate::event::Event;
use crate::text::same_text;

verus! {

pub type SubscriptionId = u64;

/// One subscription: its id, the event type it listens to, and its handler.
pub struct Subscriber<H> {
    pub id: SubscriptionId,
    pub event_type: String,
    pub handler: H,
}

pub struct EventBus<H> {
    next_id: SubscriptionId,
    subscribers: Vec<Subscriber<H>>,
}

/// The subscriptions of `subs` whose id is not `id`, in order.
pub open spec fn without_id<H>(subs: Seq<Subscriber<H>>, id: SubscriptionId) -> Seq<Subscriber<H>>
    decreases subs.len(),
{
    if subs.len() == 0 {
        subs
    } else {
        let rest = without_id(subs.drop_last(), id);
        if subs.last().id == id {
            rest
        } else {
            rest.push(subs.last())
        }
    }
}

/// The handlers of the subscriptions to `event_type`, in subscription order.
pub open spec fn handlers_for<H>(subs: Seq<Subscriber<H>>, event_type: Seq<char>) -> Seq<H>
    decreases subs.len(),
{
    if subs.len() == 0 {
        Seq::empty()
    } else {
        let rest = handlers_for(subs.drop_last(), event_type);
        if subs.last().event_type@ == event_type {
            rest.push(subs.last().handler)
        } else {
            rest
        }
    }
}

/// Whether some subscription in `subs` has the id `id`.
pub open spec fn has_id<H>(subs: Seq<Subscriber<H>>, id: SubscriptionId) -> bool {
    exists|i: int| 0 <= i < subs.len() && subs[i].id == id
}

impl<H> EventBus<H> {
    /// The subscriptions, oldest first.
    pub closed spec fn entries(&self) -> Seq<Subscriber<H>> {
        self.subscribers@
    }

    /// The id the next subscription will receive.
    pub closed spec fn next_sid(&self) -> SubscriptionId {
        self.next_id
    }

    /// Ids start at 1, are handed out in increasing order, and are all below
    /// the next one.
    pub open spec fn wf(&self) -> bool {
        &&& 1 <= self.next_sid()
        &&& forall|i: int| 0 <= i < self.entries().len() ==> 1 <= #[trigger] self.entries()[i].id < self.next_sid()
        &&& forall|i: int, j: int|
            0 <= i < j < self.entries().len() ==> #[trigger] self.entries()[i].id < #[trigger] self.entries()[j].id
    }

    pub fn new() -> (bus: Self)
        ensures
            bus.wf(),
            bus.entries() == Seq::<Subscriber<H>>::empty(),
            bus.next_sid() == 1,
    {
        EventBus { next_id: 1, subscribers: Vec::new() }
    }

    /// Whether `n` more subscriptions can be handed distinct ids.
    pub fn has_room_for(&self, n: u64) -> (r: bool)
        ensures
            r == (self.next_sid() + n < u64::MAX),
    {
        n < u64::MAX - self.next_id
    }

    /// Adds a subscription and returns its id, which no earlier subscription has.
    pub fn subscribe(&mut self, event_type: &str, handler: H) -> (id: SubscriptionId)
        requires
            old(self).wf(),
            old(self).next_sid() < u64::MAX,
        ensures
            final(self).wf(),
            id == old(self).next_sid(),
            final(self).next_sid() == id + 1,
            final(self).entries().len() == old(self).entries().len() + 1,
            final(self).entries().drop_last() == old(self).entries(),
            final(self).entries().last().id == id,
            final(self).entries().last().event_type@ == event_type@,
            final(self).entries().last().handler == handler,
            !has_id(old(self).entries(), id),
    {
        let id = self.next_id;
        self.next_id = id + 1;
        self.subscribers.push(Subscriber { id, event_type: event_type.to_owned(), handler });
        assert(self.entries().drop_last() =~= old(self).entries());
        id
    }

    /// Removes the subscription with id `id`, if there is one.
    pub fn unsubscribe(&mut self, id: SubscriptionId)
        requires
            old(self).wf(),
        ensures
            final(self).wf(),
            final(self).next_sid() == old(self).next_sid(),
            final(self).entries() == without_id(old(self).entries(), id),
            !has_id(final(self).entries(), id),
    {
        let mut i: usize = 0;
        while i < self.subscribers.len()
            invariant
                i <= self.subscribers@.len(),
                self.subscribers@ == old(self).subscribers@,
                self.next_id == old(self).next_id,
                old(self).wf(),
                forall|k: int| 0 <= k < i ==> self.subscribers@[k].id != id,
            decreases self.subscribers@.len() - i,
        {
            if self.subscribers[i].id == id {
                proof {
                    assert(old(self).entries() == self.subscribers@);
                    assert(old(self).next_sid() == self.next_id);
                    lemma_without_id_at(self.subscribers@, id, i as int);
                    lemma_without_id_keeps_order(self.subscribers@, id, self.next_id);
                }
                let _ = self.subscribers.remove(i);
                return;
            }
            i += 1;
        }
        proof {
            assert(old(self).entries() == self.subscribers@);
            assert(old(self).next_sid() == self.next_id);
            lemma_without_id_absent(self.subscribers@, id);
            lemma_without_id_keeps_order(self.subscribers@, id, self.next_id);
        }
    }

    /// The handlers to be handed an event of the type of `event`, oldest
    /// subscription first.
    pub fn publish<E: Event>(&self, event: &E) -> (r: Vec<&H>)
        ensures
            r@.len() == handlers_for(self.entries(), event.kind()).len(),
            forall|i: int| 0 <= i < r@.len() ==> *r@[i] == handlers_for(self.entries(), event.kind())[i],
    {
        let et = event.event_type();
        let mut r: Vec<&H> = Vec::new();
        let mut i: usize = 0;
        while i < self.subscribers.len()
            invariant
                i <= self.subscribers@.len(),
                et@ == event.kind(),
                r@.len() == handlers_for(self.subscribers@.take(i as int), et@).len(),
                forall|k: int| 0 <= k < r@.len() ==> *r@[k] == handlers_for(self.subscribers@.take(i as int), et@)[k],
            decreases self.subscribers@.len() - i,
        {
            let s = &self.subscribers[i];
            proof {
                assert(self.subscribers@.take(i + 1).drop_last() =~= self.subscribers@.take(i as int));
            }
            if same_text(s.event_type.as_str(), et) {
                r.push(&s.handler);
            }
            i += 1;
        }
        assert(self.subscribers@.take(i as int) =~= self.subscribers@);
        r
    }

    /// The handler of the subscription with id `id`.
    pub fn handler(&self, id: SubscriptionId) -> (r: Option<&H>)
        requires
            self.wf(),
        ensures
            (match r {
                Some(h) => exists|i: int| 0 <= i < self.entries().len() && self.entries()[i].id == id && self.entries()[i].handler == *h,
                None => !has_id(self.entries(), id),
            }),
    {
        let mut i: usize = 0;
        while i < self.subscribers.len()
            invariant
                i <= self.subscribers@.len(),
                forall|k: int| 0 <= k < i ==> self.subscribers@[k].id != id,
            decreases self.subscribers@.len() - i,
        {
            if self.subscribers[i].id == id {
                assert(self.entries()[i as int].id == id);
                return Some(&self.subscribers[i].handler);
            }
            i += 1;
        }
        None
    }

    /// The number of subscriptions.
    pub fn len(&self) -> (r: usize)
        ensures
            r == self.entries().len(),
    {
        self.subscribers.len()
    }
}

/// Removing an id that no subscription has leaves the sequence as it is.
pub proof fn lemma_without_id_absent<H>(subs: Seq<Subscriber<H>>, id: SubscriptionId)
    requires
        forall|k: int| 0 <= k < subs.len() ==> subs[k].id != id,
    ensures
        without_id(subs, id) == subs,
    decreases subs.len(),
{
    if subs.len() > 0 {
        lemma_without_id_absent(subs.drop_last(), id);
        assert(subs.drop_last().push(subs.last()) =~= subs);
    }
}

/// With distinct ids, removing the id found at `p` removes exactly that entry.
pub proof fn lemma_without_id_at<H>(subs: Seq<Subscriber<H>>, id: SubscriptionId, p: int)
    requires
        0 <= p < subs.len(),
        subs[p].id == id,
        forall|i: int, j: int| 0 <= i < j < subs.len() ==> #[trigger] subs[i].id < #[trigger] subs[j].id,
    ensures
        without_id(subs, id) == subs.remove(p),
    decreases subs.len(),
{
    let d = subs.drop_last();
    if p == subs.len() - 1 {
        lemma_without_id_absent(d, id);
        assert(subs.remove(p) =~= d);
    } else {
        lemma_without_id_at(d, id, p);
        assert(subs.last().id != id);
        assert(d.remove(p).push(subs.last()) =~= subs.remove(p));
    }
}

/// Filtering keeps a subsequence: the ids stay in increasing order and below
/// any bound that held for the whole sequence, and the removed id is gone.
pub proof fn lemma_without_id_keeps_order<H>(subs: Seq<Subscriber<H>>, id: SubscriptionId, bound: SubscriptionId)
    requires
        forall|i: int| 0 <= i < subs.len() ==> 1 <= #[trigger] subs[i].id < bound,
        forall|i: int, j: int| 0 <= i < j < subs.len() ==> #[trigger] subs[i].id < #[trigger] subs[j].id,
    ensures
        forall|i: int| 0 <= i < without_id(subs, id).len() ==> 1 <= #[trigger] without_id(subs, id)[i].id < bound,
        forall|i: int, j: int|
            0 <= i < j < without_id(subs, id).len() ==> #[trigger] without_id(subs, id)[i].id < #[trigger] without_id(subs, id)[j].id,
        !has_id(without_id(subs, id), id),
        forall|x: SubscriptionId| has_id(without_id(subs, id), x) ==> has_id(subs, x),
    decreases subs.len(),
{
    if subs.len() > 0 {
        let d = subs.drop_last();
        lemma_without_id_keeps_order(d, id, bound);
        let r = without_id(d, id);
        assert forall|x: SubscriptionId| has_id(r, x) implies has_id(subs, x) by {
            let i = choose|i: int| 0 <= i < r.len() && r[i].id == x;
            assert(has_id(d, x));
            let j = choose|j: int| 0 <= j < d.len() && d[j].id == x;
            assert(subs[j].id == x);
        }
        if subs.last().id != id {
            let w = r.push(subs.last());
            assert forall|i: int| 0 <= i < r.len() implies #[trigger] r[i].id < subs.last().id by {
                assert(has_id(r, r[i].id));
                assert(has_id(d, r[i].id));
                let j = choose|j: int| 0 <= j < d.len() && d[j].id == r[i].id;
                assert(subs[j].id == d[j].id);
            }
            assert forall|x: SubscriptionId| has_id(w, x) implies has_id(subs, x) by {
                let i = choose|i: int| 0 <= i < w.len() && w[i].id == x;
                if i < r.len() {
                    assert(has_id(r, x));
                } else {
                    assert(subs[subs.len() - 1].id == x);
                }
            }
            assert(!has_id(w, id)) by {
                if has_id(w, id) {
                    let i = choose|i: int| 0 <= i < w.len() && w[i].id == id;
                    if i < r.len() {
                        assert(has_id(r, id));
                    }
                }
            }
        }
    }
}

/// A handler that subscribes to an event type is the last one handed the
/// next event of that type; events of other types reach the same handlers as
/// before.
pub proof fn law_subscribe_then_publish<H>(subs: Seq<Subscriber<H>>, sub: Subscriber<H>, published: Seq<char>)
    ensures
        handlers_for(subs.push(sub), published) == if sub.event_type@ == published {
            handlers_for(subs, published).push(sub.handler)
        } else {
            handlers_for(subs, published)
        },
{
    assert(subs.push(sub).drop_last() =~= subs);
}

/// Unsubscribing the id that a subscription just received gives back the
/// subscriptions as they were before it.
pub proof fn law_unsubscribe_undoes_subscribe<H>(subs: Seq<Subscriber<H>>, sub: Subscriber<H>)
    requires
        !has_id(subs, sub.id),
    ensures
        without_id(subs.push(sub), sub.id) == subs,
{
    assert(subs.push(sub).drop_last() =~= subs);
    lemma_without_id_absent(subs, sub.id);
}

/// Unsubscribing an id that no subscription has changes nothing.
pub proof fn law_unsubscribe_unknown_is_noop<H>(subs: Seq<Subscriber<H>>, id: SubscriptionId)
    requires
        !has_id(subs, id),
    ensures
        without_id(subs, id) == subs,
{
    lemma_without_id_absent(subs, id);
}

} // verus!
