//! A bounded, lossy broadcast bus for change notifications.
//!
//! Every subscriber owns an independent cursor into the stream of published
//! events.  Publishing never blocks and never fails: a subscriber that has
//! fallen more than `capacity` events behind loses the oldest unread events
//! and, on its next poll, observes the gap instead of the lost events.

use vstd::prelude::*;

verus! {

/// An event the bus can fan out: duplicating it yields the same value.
/// The library's event types implement this with a field-for-field copy,
/// so everything proved of a published event holds of every delivered
/// copy.
pub trait DupEvent: Sized {
    fn dup(&self) -> (r: Self)
        ensures
            r == *self,
    ;
}

/// What one poll of a subscriber's cursor yields.
#[derive(Debug, PartialEq)]
pub enum PollResult<T> {
    /// The oldest event not yet delivered to this subscriber.
    Event(T),
    /// The subscriber fell behind and this many events were lost; the next
    /// poll resumes with the oldest event still buffered.
    Lagged(u64),
    /// Nothing published since the last poll.
    Empty,
}

/// The abstract state of one subscriber's cursor: how many events of the
/// bus history it has consumed or skipped, how many were dropped unread
/// since its last poll, and which events still wait in its buffer.
pub ghost struct SubscriberModel<T> {
    pub read: int,
    pub missed: int,
    pub buffered: Seq<T>,
}

/// One step of a subscriber's cursor under a newly published event: the
/// event is appended to its buffer; if the buffer is full, the oldest
/// buffered event is dropped and counted as missed.
pub open spec fn step_subscriber<T>(m: SubscriberModel<T>, e: T, cap: int) -> SubscriberModel<T> {
    if m.buffered.len() < cap {
        SubscriberModel { buffered: m.buffered.push(e), ..m }
    } else {
        SubscriberModel {
            read: m.read,
            missed: m.missed + 1,
            buffered: m.buffered.drop_first().push(e),
        }
    }
}

/// A subscriber's cursor after a whole sequence of events is published
/// while it never polls.
pub open spec fn apply_publishes<T>(m: SubscriberModel<T>, events: Seq<T>, cap: int) -> SubscriberModel<T>
    decreases events.len(),
{
    if events.len() == 0 {
        m
    } else {
        apply_publishes(step_subscriber(m, events.first(), cap), events.drop_first(), cap)
    }
}

struct Subscriber<T> {
    /// Buffered events, oldest first.
    buf: Vec<T>,
    /// Events dropped unread since the last poll.
    missed: u64,
    /// Ghost: events of the history consumed or skipped by this subscriber,
    /// counting those published before it subscribed.
    read: Ghost<int>,
}

/// The broadcast bus: a ghost history of everything published, and one
/// bounded buffer per subscriber.
pub struct EventBus<T> {
    subs: Vec<Subscriber<T>>,
    capacity: usize,
    history: Ghost<Seq<T>>,
}

impl<T: DupEvent> EventBus<T> {
    /// Everything ever published, in order.
    pub closed spec fn history(self) -> Seq<T> {
        self.history@
    }

    /// The bound on each subscriber's buffer.
    pub closed spec fn capacity(self) -> int {
        self.capacity as int
    }

    pub closed spec fn subscriber_count(self) -> int {
        self.subs@.len() as int
    }

    /// The abstract cursor state of subscriber `id`.
    pub closed spec fn subscriber(self, id: int) -> SubscriberModel<T> {
        SubscriberModel {
            read: self.subs@[id].read@,
            missed: self.subs@[id].missed as int,
            buffered: self.subs@[id].buf@,
        }
    }

    spec fn sub_wf(s: Subscriber<T>, history: Seq<T>, cap: int) -> bool {
        &&& 0 <= s.read@
        &&& s.read@ + s.missed + s.buf@.len() == history.len()
        &&& s.buf@ == history.subrange(history.len() - s.buf@.len(), history.len() as int)
        &&& s.buf@.len() <= cap
    }

    /// Well-formedness: every buffer is a suffix of the history, no longer
    /// than the capacity, and cursor accounting adds up.
    pub closed spec fn wf(self) -> bool {
        &&& self.capacity >= 1
        &&& forall|i: int|
            0 <= i < self.subs@.len() ==> Self::sub_wf(#[trigger] self.subs@[i], self.history@, self.capacity as int)
    }

    /// An empty bus whose subscribers may buffer up to `capacity` events.
    pub fn new(capacity: usize) -> (bus: Self)
        requires
            capacity >= 1,
        ensures
            bus.wf(),
            bus.history() == Seq::<T>::empty(),
            bus.capacity() == capacity,
            bus.subscriber_count() == 0,
    {
        EventBus { subs: Vec::new(), capacity, history: Ghost(Seq::empty()) }
    }

    /// Register a new subscriber; it starts at the current end of the
    /// stream and its cursor id is returned.
    pub fn subscribe(&mut self) -> (id: usize)
        requires
            old(self).wf(),
        ensures
            final(self).wf(),
            final(self).history() == old(self).history(),
            final(self).capacity() == old(self).capacity(),
            final(self).subscriber_count() == old(self).subscriber_count() + 1,
            id == old(self).subscriber_count(),
            forall|i: int| 0 <= i < old(self).subscriber_count()
                ==> final(self).subscriber(i) == old(self).subscriber(i),
            final(self).subscriber(id as int).missed == 0,
            final(self).subscriber(id as int).buffered == Seq::<T>::empty(),
    {
        let id = self.subs.len();
        let ghost start = self.history@.len() as int;
        self.subs.push(Subscriber { buf: Vec::new(), missed: 0, read: Ghost(start) });
        proof {
            assert(self.subs@[id as int].buf@ =~= self.history@.subrange(
                self.history@.len() - 0, self.history@.len() as int));
        }
        id
    }

    /// Fan the event out to every subscriber, dropping the oldest buffered
    /// event of any subscriber whose buffer is full.  Never blocks, never
    /// fails, and never waits on a slow subscriber.
    pub fn publish(&mut self, e: T)
        requires
            old(self).wf(),
            old(self).history().len() < u64::MAX,
        ensures
            final(self).wf(),
            final(self).history() == old(self).history().push(e),
            final(self).capacity() == old(self).capacity(),
            final(self).subscriber_count() == old(self).subscriber_count(),
            forall|i: int| 0 <= i < old(self).subscriber_count()
                ==> final(self).subscriber(i)
                    == step_subscriber(#[trigger] old(self).subscriber(i), e, old(self).capacity()),
    {
        let ghost old_history = self.history@;
        let n = self.subs.len();
        let mut j: usize = 0;
        while j < n
            invariant
                n == self.subs@.len(),
                j <= n,
                self.capacity == old(self).capacity,
                self.capacity >= 1,
                self.history@ == old_history,
                old_history.len() < u64::MAX,
                forall|i: int| 0 <= i < j
                    ==> Self::sub_wf(#[trigger] self.subs@[i], old_history.push(e), self.capacity as int),
                forall|i: int| 0 <= i < j
                    ==> self.subscriber(i)
                        == step_subscriber(#[trigger] old(self).subscriber(i), e, self.capacity as int),
                forall|i: int| j <= i < n
                    ==> #[trigger] self.subs@[i] == old(self).subs@[i],
                forall|i: int| j <= i < n
                    ==> Self::sub_wf(#[trigger] self.subs@[i], old_history, self.capacity as int),
            decreases n - j,
        {
            let ghost before = self.subs@;
            let mut sub = self.subs.remove(j);
            if sub.buf.len() == self.capacity {
                sub.buf.remove(0);
                sub.missed = sub.missed + 1;
            }
            sub.buf.push(e.dup());
            proof {
                assert(sub.buf@ =~= old_history.push(e).subrange(
                    old_history.push(e).len() - sub.buf@.len(), old_history.push(e).len() as int));
            }
            self.subs.insert(j, sub);
            proof {
                assert(self.subs@ =~= before.update(j as int, sub));
            }
            j = j + 1;
        }
        proof {
            self.history@ = old_history.push(e);
        }
    }

    /// Advance subscriber `id`'s cursor by one step: report a gap if events
    /// were lost since its last poll, otherwise hand out the oldest buffered
    /// event, otherwise report that nothing is pending.
    pub fn poll(&mut self, id: usize) -> (r: PollResult<T>)
        requires
            old(self).wf(),
            id < old(self).subscriber_count(),
        ensures
            final(self).wf(),
            final(self).history() == old(self).history(),
            final(self).capacity() == old(self).capacity(),
            final(self).subscriber_count() == old(self).subscriber_count(),
            forall|i: int| 0 <= i < old(self).subscriber_count() && i != id
                ==> final(self).subscriber(i) == old(self).subscriber(i),
            match r {
                PollResult::Lagged(n) => {
                    &&& old(self).subscriber(id as int).missed == n
                    &&& n > 0
                    &&& final(self).subscriber(id as int) == (SubscriberModel {
                        read: old(self).subscriber(id as int).read + n,
                        missed: 0,
                        buffered: old(self).subscriber(id as int).buffered,
                    })
                },
                PollResult::Event(e) => {
                    &&& old(self).subscriber(id as int).missed == 0
                    &&& old(self).subscriber(id as int).buffered.len() > 0
                    &&& e == old(self).subscriber(id as int).buffered.first()
                    &&& final(self).subscriber(id as int) == (SubscriberModel {
                        read: old(self).subscriber(id as int).read + 1,
                        missed: 0,
                        buffered: old(self).subscriber(id as int).buffered.drop_first(),
                    })
                },
                PollResult::Empty => {
                    &&& old(self).subscriber(id as int).missed == 0
                    &&& old(self).subscriber(id as int).buffered.len() == 0
                    &&& final(self).subscriber(id as int) == old(self).subscriber(id as int)
                },
            },
    {
        let sub = &mut self.subs[id];
        if sub.missed > 0 {
            let n = sub.missed;
            sub.missed = 0;
            proof {
                sub.read@ = sub.read@ + n as int;
            }
            PollResult::Lagged(n)
        } else if sub.buf.len() > 0 {
            let e = sub.buf.remove(0);
            proof {
                sub.read@ = sub.read@ + 1;
                let s = self.subs@[id as int];
                assert(s.buf@ =~= self.history@.subrange(
                    self.history@.len() - s.buf@.len(), self.history@.len() as int));
            }
            PollResult::Event(e)
        } else {
            PollResult::Empty
        }
    }

    /// How many subscribers are registered.
    pub fn len(&self) -> (n: usize)
        ensures
            n == self.subscriber_count(),
    {
        self.subs.len()
    }
}

/// Law: a subscriber that never polls while more events than the capacity
/// are published observes a detectable gap.  Publishing is total — the
/// publisher is never blocked by the slow subscriber — and once the burst
/// exceeds the capacity the subscriber's next poll must report `Lagged`
/// with exactly the number of events lost.
pub proof fn lemma_unpolled_subscriber_observes_gap<T>(
    m: SubscriberModel<T>,
    events: Seq<T>,
    cap: int,
)
    requires
        cap >= 1,
        m.missed == 0,
        0 <= m.buffered.len() <= cap,
        m.buffered.len() + events.len() > cap,
    ensures
        apply_publishes(m, events, cap).missed == m.buffered.len() + events.len() - cap,
        apply_publishes(m, events, cap).missed > 0,
        apply_publishes(m, events, cap).buffered.len() == cap,
    decreases events.len(),
{
    lemma_publish_burst(m, events, cap);
}

/// How any burst of publishes reshapes an unpolled subscriber's cursor: the
/// buffer retains the newest events up to the capacity, and everything
/// beyond that is counted as missed.
pub proof fn lemma_publish_burst<T>(m: SubscriberModel<T>, events: Seq<T>, cap: int)
    requires
        cap >= 1,
        m.missed >= 0,
        0 <= m.buffered.len() <= cap,
    ensures
        apply_publishes(m, events, cap).read == m.read,
        apply_publishes(m, events, cap).buffered.len()
            == vstd::math::min((m.buffered.len() + events.len()) as int, cap),
        apply_publishes(m, events, cap).missed
            == m.missed + m.buffered.len() + events.len()
                - apply_publishes(m, events, cap).buffered.len(),
    decreases events.len(),
{
    if events.len() > 0 {
        lemma_publish_burst(step_subscriber(m, events.first(), cap), events.drop_first(), cap);
    }
}

} // verus!
