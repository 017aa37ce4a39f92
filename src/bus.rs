//! The fan-out bus: one registry of subscribers, each with a bounded queue of
//! undelivered events. Publishing appends the event to every queue; a queue
//! that would grow past the bus's capacity loses its oldest event instead, so
//! a stalled subscriber never holds up the publisher or anyone else.
//!
//! The events are kept once, in a log of the most recent ones; a subscriber is
//! a cursor into that log. A cursor that has fallen behind the log's start has
//! lost what lay before it.
use vstd::prelude::*;
use crate::message::WsMessage;

verus! {

/// The last `cap` elements of `q` (all of `q` if it is no longer).
pub open spec fn bounded(q: Seq<WsMessage>, cap: nat) -> Seq<WsMessage> {
    if q.len() <= cap {
        q
    } else {
        q.subrange(q.len() - cap, q.len() as int)
    }
}

/// The queues after one publish of `msg`: each queue gets `msg` at its end
/// and keeps at most `cap` events.
pub open spec fn after_publish(m: Map<u64, Seq<WsMessage>>, msg: WsMessage, cap: nat) -> Map<u64, Seq<WsMessage>> {
    m.map_values(|q: Seq<WsMessage>| bounded(q.push(msg), cap))
}

/// One publish reaches every subscription that is live when it happens: the
/// event ends up last in its queue, whatever the queue held (the capacity is
/// at least one). A subscription that is not live gets nothing.
pub proof fn lemma_fan_out(m: Map<u64, Seq<WsMessage>>, msg: WsMessage, cap: nat)
    requires
        cap > 0,
    ensures
        after_publish(m, msg, cap).dom() == m.dom(),
        forall|id: u64| #[trigger] m.dom().contains(id) ==> after_publish(m, msg, cap)[id].len() > 0
            && after_publish(m, msg, cap)[id].last() == msg,
        forall|id: u64| !m.dom().contains(id) ==> !#[trigger] after_publish(m, msg, cap).dom().contains(id),
{
    assert(after_publish(m, msg, cap).dom() =~= m.dom());
}

/// Publishing keeps each subscription's order: the events already queued stay
/// in order ahead of the new one, less those dropped from the front.
pub proof fn lemma_publish_keeps_order(m: Map<u64, Seq<WsMessage>>, msg: WsMessage, cap: nat, id: u64)
    requires
        cap > 0,
        m.dom().contains(id),
    ensures
        ({
            let q = after_publish(m, msg, cap)[id];
            let k = m[id].len() + 1 - q.len();
            &&& 0 <= k <= m[id].len()
            &&& q == m[id].subrange(k, m[id].len() as int).push(msg)
        }),
{
    let q = after_publish(m, msg, cap)[id];
    let k = m[id].len() + 1 - q.len();
    assert(q =~= m[id].subrange(k, m[id].len() as int).push(msg));
}

#[derive(Clone, Copy)]
struct Cursor {
    id: u64,
    /// Sequence number of the next event to deliver.
    next: u64,
}

/// The process-wide bus. Its view maps each live subscription to the events
/// not yet delivered to it, oldest first.
pub struct WsState {
    /// The most recent events, oldest first.
    log: Vec<WsMessage>,
    /// Sequence number of `log[0]`.
    first: u64,
    capacity: usize,
    /// Live subscriptions, in increasing order of id.
    subs: Vec<Cursor>,
    next_id: u64,
}

impl WsState {
    /// Where, in the log, the queue of a cursor at `next` starts.
    closed spec fn start_of(&self, next: u64) -> int {
        if next < self.first {
            0
        } else {
            next - self.first
        }
    }

    closed spec fn queue_at(&self, i: int) -> Seq<WsMessage> {
        self.log@.subrange(self.start_of(self.subs@[i].next), self.log@.len() as int)
    }

    closed spec fn has(&self, id: u64) -> bool {
        exists|i: int| 0 <= i < self.subs@.len() && self.subs@[i].id == id
    }

    closed spec fn slot(&self, id: u64) -> int {
        choose|i: int| 0 <= i < self.subs@.len() && self.subs@[i].id == id
    }

    /// The bound on each subscriber's queue.
    pub closed spec fn cap(&self) -> nat {
        self.capacity as nat
    }

    pub closed spec fn wf(&self) -> bool {
        &&& self.capacity > 0
        &&& self.log@.len() <= self.capacity
        &&& self.first + self.log@.len() <= u64::MAX
        &&& forall|i: int| 0 <= i < self.subs@.len() ==> self.subs@[i].next <= self.first + self.log@.len()
        &&& forall|i: int| 0 <= i < self.subs@.len() ==> self.subs@[i].id < self.next_id
        &&& forall|i: int, j: int| 0 <= i < j < self.subs@.len() ==> self.subs@[i].id < self.subs@[j].id
    }

    /// How many events have been published on this bus.
    pub closed spec fn sequenced(&self) -> nat {
        (self.first + self.log@.len()) as nat
    }

    /// How many subscription ids this bus has handed out.
    pub closed spec fn issued(&self) -> nat {
        self.next_id as nat
    }

    /// Whether another event can be numbered.
    pub open spec fn can_publish(&self) -> bool {
        self.sequenced() < u64::MAX
    }

    /// Whether another subscription can be numbered.
    pub open spec fn can_subscribe(&self) -> bool {
        self.issued() < u64::MAX
    }

    proof fn lemma_slot(&self, i: int)
        requires
            self.wf(),
            0 <= i < self.subs@.len(),
        ensures
            self.has(self.subs@[i].id),
            self.slot(self.subs@[i].id) == i,
    {
        let id = self.subs@[i].id;
        assert(self.has(id));
        let j = self.slot(id);
        if j < i {
            assert(self.subs@[j].id < self.subs@[i].id);
        } else if j > i {
            assert(self.subs@[i].id < self.subs@[j].id);
        }
    }

    /// A bus whose subscribers each hold at most `capacity` undelivered events.
    pub fn new(capacity: usize) -> (r: WsState)
        requires
            capacity > 0,
        ensures
            r.wf(),
            r@ == Map::<u64, Seq<WsMessage>>::empty(),
            r.cap() == capacity,
            r.sequenced() == 0,
            r.issued() == 0,
    {
        let r = WsState { log: Vec::new(), first: 0, capacity, subs: Vec::new(), next_id: 0 };
        assert(r@ =~= Map::<u64, Seq<WsMessage>>::empty());
        r
    }

    /// Number of live subscriptions.
    pub fn subscriber_count(&self) -> (r: usize)
        requires
            self.wf(),
        ensures
            r == self@.dom().len(),
    {
        proof {
            self.lemma_count();
        }
        self.subs.len()
    }

    proof fn lemma_count(&self)
        requires
            self.wf(),
        ensures
            self.subs@.len() == self@.dom().len(),
            self@.dom().finite(),
    {
        let ids = self.subs@.map_values(|c: Cursor| c.id);
        assert(ids.no_duplicates()) by {
            assert forall|i: int, j: int| 0 <= i < ids.len() && 0 <= j < ids.len() && i != j implies ids[i] != ids[j] by {
                if i < j {
                    assert(self.subs@[i].id < self.subs@[j].id);
                } else {
                    assert(self.subs@[j].id < self.subs@[i].id);
                }
            }
        }
        ids.unique_seq_to_set();
        assert(self@.dom() =~= ids.to_set()) by {
            assert forall|id: u64| self@.dom().contains(id) <==> ids.to_set().contains(id) by {
                if self@.dom().contains(id) {
                    let i = self.slot(id);
                    assert(ids[i] == id);
                }
                if ids.to_set().contains(id) {
                    let i = choose|i: int| 0 <= i < ids.len() && ids[i] == id;
                    assert(self.subs@[i].id == id);
                }
            }
        }
    }

    /// Registers a new subscription, whose queue starts empty: it receives
    /// the events published from now on.
    pub fn subscribe(&mut self) -> (id: u64)
        requires
            old(self).wf(),
            old(self).can_subscribe(),
        ensures
            final(self).wf(),
            !old(self)@.dom().contains(id),
            final(self)@ == old(self)@.insert(id, Seq::<WsMessage>::empty()),
            final(self).cap() == old(self).cap(),
            final(self).sequenced() == old(self).sequenced(),
            final(self).issued() == old(self).issued() + 1,
    {
        let id = self.next_id;
        let next = self.first + self.log.len() as u64;
        proof {
            if old(self).has(id) {
                let i = old(self).slot(id);
                assert(old(self).subs@[i].id < old(self).next_id);
            }
        }
        self.subs.push(Cursor { id, next });
        self.next_id = self.next_id + 1;
        proof {
            let o = old(self)@;
            let n = self@;
            assert forall|i: int| 0 <= i < self.subs@.len() implies self.subs@[i].id < self.next_id by {}
            assert forall|k: u64| #[trigger] n.dom().contains(k) <==> o.insert(id, Seq::<WsMessage>::empty()).dom().contains(k) by {
                if n.dom().contains(k) {
                    let i = self.slot(k);
                    if i < old(self).subs@.len() {
                        assert(old(self).subs@[i] == self.subs@[i]);
                    }
                }
                if o.dom().contains(k) {
                    let i = old(self).slot(k);
                    assert(self.subs@[i] == old(self).subs@[i]);
                }
                if k == id {
                    assert(self.subs@[self.subs@.len() - 1].id == id);
                }
            }
            assert forall|k: u64| #[trigger] n.dom().contains(k) implies n[k] == o.insert(id, Seq::<WsMessage>::empty())[k] by {
                let i = self.slot(k);
                self.lemma_slot(i);
                if i < old(self).subs@.len() {
                    assert(old(self).subs@[i] == self.subs@[i]);
                    old(self).lemma_slot(i);
                } else {
                    assert(self.queue_at(i) =~= Seq::<WsMessage>::empty());
                }
            }
            assert(n =~= o.insert(id, Seq::<WsMessage>::empty()));
        }
        id
    }

    /// Index of subscription `id` in `subs`, if it is live.
    fn find(&self, id: u64) -> (r: Option<usize>)
        requires
            self.wf(),
        ensures
            r is Some <==> self@.dom().contains(id),
            r is Some ==> r->Some_0 < self.subs@.len() && self.subs@[r->Some_0 as int].id == id,
    {
        let mut k: usize = 0;
        while k < self.subs.len()
            invariant
                k <= self.subs@.len(),
                forall|j: int| 0 <= j < k ==> self.subs@[j].id != id,
            decreases self.subs@.len() - k,
        {
            if self.subs[k].id == id {
                proof {
                    assert(self.has(id));
                }
                return Some(k);
            }
            k = k + 1;
        }
        proof {
            if self.has(id) {
                let i = self.slot(id);
                assert(self.subs@[i].id == id);
            }
        }
        None
    }

    /// Ends a subscription: nothing more is delivered to it. An id that is not
    /// live leaves the bus unchanged.
    pub fn unsubscribe(&mut self, id: u64)
        requires
            old(self).wf(),
        ensures
            final(self).wf(),
            final(self)@ == old(self)@.remove(id),
            final(self).cap() == old(self).cap(),
            final(self).sequenced() == old(self).sequenced(),
            final(self).issued() == old(self).issued(),
    {
        match self.find(id) {
            None => {
                proof {
                    assert(self@ =~= old(self)@.remove(id));
                }
            },
            Some(k) => {
                self.subs.remove(k);
                proof {
                    let o = old(self)@;
                    let n = self@;
                    let os = old(self).subs@;
                    assert(forall|i: int| 0 <= i < k ==> self.subs@[i] == os[i]);
                    assert(forall|i: int| k <= i < self.subs@.len() ==> self.subs@[i] == os[i + 1]);
                    assert forall|i: int, j: int| 0 <= i < j < self.subs@.len() implies self.subs@[i].id < self.subs@[j].id by {
                        if i < k {
                            if j < k {
                            } else {
                                assert(os[i].id < os[j + 1].id);
                            }
                        } else {
                            assert(os[i + 1].id < os[j + 1].id);
                        }
                    }
                    assert(self.wf());
                    assert forall|x: u64| #[trigger] n.dom().contains(x) <==> o.remove(id).dom().contains(x) by {
                        if n.dom().contains(x) {
                            let i = self.slot(x);
                            if i < k {
                                assert(os[i].id == x);
                                assert(os[i].id < os[k as int].id);
                            } else {
                                assert(os[i + 1].id == x);
                                assert(os[k as int].id < os[i + 1].id);
                            }
                        }
                        if o.dom().contains(x) && x != id {
                            let i = old(self).slot(x);
                            if i < k {
                                assert(self.subs@[i].id == x);
                            } else {
                                assert(i != k);
                                assert(self.subs@[i - 1].id == x);
                            }
                        }
                    }
                    assert forall|x: u64| #[trigger] n.dom().contains(x) implies n[x] == o.remove(id)[x] by {
                        let i = self.slot(x);
                        self.lemma_slot(i);
                        if i < k {
                            old(self).lemma_slot(i);
                        } else {
                            old(self).lemma_slot(i + 1);
                        }
                    }
                    assert(n =~= o.remove(id));
                }
            },
        }
    }

    /// Delivers `msg` to every live subscription: it joins the end of each
    /// queue, and a queue already at capacity loses its oldest event. Returns
    /// how many subscriptions it reached.
    pub fn publish(&mut self, msg: WsMessage) -> (n: usize)
        requires
            old(self).wf(),
            old(self).can_publish(),
        ensures
            final(self).wf(),
            final(self)@ == after_publish(old(self)@, msg, old(self).cap()),
            final(self)@.dom() == old(self)@.dom(),
            forall|id: u64| #[trigger] old(self)@.dom().contains(id) ==> final(self)@[id].len() > 0
                && final(self)@[id].last() == msg,
            n == old(self)@.dom().len(),
            final(self).cap() == old(self).cap(),
            final(self).sequenced() == old(self).sequenced() + 1,
            final(self).issued() == old(self).issued(),
    {
        proof {
            self.lemma_count();
            lemma_fan_out(self@, msg, self.cap());
        }
        let n = self.subs.len();
        let ghost full = self.log@.len() == self.capacity;
        if self.log.len() == self.capacity {
            self.log.remove(0);
            self.first = self.first + 1;
        }
        self.log.push(msg);
        proof {
            let o = old(self)@;
            let nm = self@;
            let l = old(self).log@;
            let cap = old(self).cap();
            let target = after_publish(o, msg, cap);
            assert(self.subs@ == old(self).subs@);
            assert forall|k: u64| #[trigger] nm.dom().contains(k) <==> target.dom().contains(k) by {}
            assert forall|i: int| 0 <= i < self.subs@.len() implies self.queue_at(i) == bounded(old(self).queue_at(i).push(msg), cap) by {
                let next = self.subs@[i].next;
                let q = old(self).queue_at(i);
                let f = old(self).first;
                if !full {
                    assert(self.queue_at(i) =~= q.push(msg));
                } else if next >= f + 1 {
                    assert(self.queue_at(i) =~= q.push(msg));
                } else {
                    assert(q =~= l);
                    assert(self.queue_at(i) =~= bounded(q.push(msg), cap));
                }
            }
            assert forall|k: u64| #[trigger] nm.dom().contains(k) implies nm[k] == target[k] by {
                let i = self.slot(k);
                assert(old(self).slot(k) == i);
            }
            assert(nm =~= target);
        }
        n
    }

    /// Takes the oldest undelivered event of subscription `id`, if any.
    pub fn recv(&mut self, id: u64) -> (r: Option<WsMessage>)
        requires
            old(self).wf(),
            old(self)@.dom().contains(id),
        ensures
            final(self).wf(),
            old(self)@[id].len() == 0 ==> r is None && final(self)@ == old(self)@,
            old(self)@[id].len() > 0 ==> r == Some(old(self)@[id][0])
                && final(self)@ == old(self)@.insert(id, old(self)@[id].drop_first()),
            final(self).cap() == old(self).cap(),
            final(self).sequenced() == old(self).sequenced(),
            final(self).issued() == old(self).issued(),
    {
        let k = match self.find(id) {
            Some(k) => k,
            None => {
                return None;
            },
        };
        proof {
            self.lemma_slot(k as int);
        }
        let next = self.subs[k].next;
        let start = if next < self.first { self.first } else { next };
        let end = self.first + self.log.len() as u64;
        if start == end {
            return None;
        }
        let m = self.log[(start - self.first) as usize].duplicate();
        self.subs.set(k, Cursor { id, next: start + 1 });
        proof {
            let o = old(self)@;
            let nm = self@;
            let target = o.insert(id, o[id].drop_first());
            let os = old(self).subs@;
            assert(forall|i: int| 0 <= i < os.len() && i != k ==> self.subs@[i] == os[i]);
            assert forall|i: int, j: int| 0 <= i < j < self.subs@.len() implies self.subs@[i].id < self.subs@[j].id by {
                assert(os[i].id < os[j].id);
            }
            assert(self.wf());
            assert forall|x: u64| #[trigger] nm.dom().contains(x) <==> target.dom().contains(x) by {
                if nm.dom().contains(x) {
                    let i = self.slot(x);
                    assert(os[i].id == x);
                }
                if o.dom().contains(x) {
                    let i = old(self).slot(x);
                    assert(self.subs@[i].id == x);
                }
            }
            assert forall|x: u64| #[trigger] nm.dom().contains(x) implies nm[x] == target[x] by {
                let i = self.slot(x);
                self.lemma_slot(i);
                old(self).lemma_slot(i);
                if i == k {
                    assert(self.queue_at(i) =~= old(self).queue_at(i).drop_first());
                }
            }
            assert(nm =~= target);
        }
        Some(m)
    }

    /// A well-formed bus keeps room for at least one event per subscription.
    pub proof fn lemma_cap_positive(&self)
        requires
            self.wf(),
        ensures
            self.cap() > 0,
    {
    }

    /// The bus holds finitely many subscriptions.
    pub proof fn lemma_dom_finite(&self)
        requires
            self.wf(),
        ensures
            self@.dom().finite(),
    {
        self.lemma_count();
    }

    /// Whether the bus has run out of event numbers; `publish` needs it not to have.
    pub fn is_saturated(&self) -> (r: bool)
        requires
            self.wf(),
        ensures
            r == !self.can_publish(),
    {
        self.log.len() as u64 >= u64::MAX - self.first
    }

    /// Whether the bus has run out of subscription numbers; `subscribe` needs it not to have.
    pub fn is_full(&self) -> (r: bool)
        ensures
            r == !self.can_subscribe(),
    {
        self.next_id == u64::MAX
    }
}

impl View for WsState {
    type V = Map<u64, Seq<WsMessage>>;

    closed spec fn view(&self) -> Map<u64, Seq<WsMessage>> {
        Map::new(|id: u64| self.has(id), |id: u64| self.queue_at(self.slot(id)))
    }
}

} // verus!
