//! The event bus: an in-process publish/subscribe relay for mutation
//! notifications.
//!
//! Writers publish a notification once per successful store mutation; every
//! subscriber active at that moment receives its own copy, in publish order.
//! Each subscription has a bounded buffer: when a subscriber falls behind, the
//! oldest unread notification is dropped rather than blocking the publisher,
//! and the subscription is marked as having lagged. Subscribers that join
//! later receive no backlog. The bus holds no durable state.

use vstd::prelude::*;
use crate::plugin::PluginUpdate;

verus! {

/// The per-subscriber buffer bound used by the server: a subscriber more than
/// this many notifications behind starts losing the oldest ones.
pub const DEFAULT_EVENT_BUFFER: usize = 10;

/// What polling a subscription yields: the next notification, nothing yet, or
/// the report that the subscriber fell behind and notifications were dropped.
#[derive(Clone, Copy, Debug, PartialEq, Eq, Structural)]
pub enum RecvOutcome {
    Event(PluginUpdate),
    Empty,
    Lagged,
}

/// What a publish came to. Publishing with nobody listening is a soft
/// condition, named rather than raised as an error: mutation handling must
/// not fail just because no stream is open.
#[derive(Clone, Copy, Debug, PartialEq, Eq, Structural)]
pub enum PublishOutcome {
    /// The notification went to this many live subscribers (at least one).
    Delivered(usize),
    /// No subscriber was live at publish time; the notification went nowhere.
    NoSubscribers,
}

struct SubQueue {
    pending: Vec<PluginUpdate>,
    lagged: bool,
}

/// The bus: a bounded buffer per subscription slot. A slot is `None` once its
/// subscriber has gone away; slot indices are never reused, so a subscription
/// handle stays valid for the lifetime of the bus.
pub struct EventBus {
    capacity: usize,
    subs: Vec<Option<SubQueue>>,
}

/// A subscriber's buffer after one notification is published to it: the
/// notification is appended; if the buffer was already full, the oldest
/// unread notification is dropped to make room.
pub open spec fn queue_after_publish(
    q: Seq<PluginUpdate>,
    e: PluginUpdate,
    cap: int,
) -> Seq<PluginUpdate> {
    if q.len() < cap {
        q.push(e)
    } else {
        q.drop_first().push(e)
    }
}

/// A subscriber's buffer after a whole sequence of notifications is published
/// to it, oldest first.
pub open spec fn queue_after_publishes(
    q: Seq<PluginUpdate>,
    es: Seq<PluginUpdate>,
    cap: int,
) -> Seq<PluginUpdate>
    decreases es.len(),
{
    if es.len() == 0 {
        q
    } else {
        queue_after_publishes(queue_after_publish(q, es[0], cap), es.drop_first(), cap)
    }
}

spec fn count_active(s: Seq<Option<SubQueue>>) -> int
    decreases s.len(),
{
    if s.len() == 0 {
        0
    } else {
        count_active(s.drop_last()) + if s.last() is Some {
            1int
        } else {
            0int
        }
    }
}

impl EventBus {
    /// The per-subscriber buffer bound this bus was created with.
    pub closed spec fn capacity(self) -> int {
        self.capacity as int
    }

    /// How many subscription slots exist, live or torn down.
    pub closed spec fn slot_count(self) -> int {
        self.subs@.len() as int
    }

    /// Whether slot `i` belongs to a live subscriber.
    pub closed spec fn is_active(self, i: int) -> bool {
        0 <= i < self.subs@.len() && self.subs@[i] is Some
    }

    /// The notifications buffered for subscriber `i`, oldest first.
    pub closed spec fn pending(self, i: int) -> Seq<PluginUpdate> {
        self.subs@[i]->Some_0.pending@
    }

    /// Whether subscriber `i` has lost notifications by falling behind.
    pub closed spec fn sub_lagged(self, i: int) -> bool {
        self.subs@[i]->Some_0.lagged
    }

    /// How many subscribers are live.
    pub closed spec fn active_count(self) -> int {
        count_active(self.subs@)
    }

    /// Well-formedness: the buffer bound is positive and no buffer exceeds it.
    pub closed spec fn wf(self) -> bool {
        &&& self.capacity >= 1
        &&& forall|i: int| self.is_active(i) ==> #[trigger] self.pending(i).len() <= self.capacity
    }

    /// A bus with no subscribers and the given per-subscriber buffer bound.
    pub fn new(capacity: usize) -> (b: EventBus)
        requires
            capacity >= 1,
        ensures
            b.wf(),
            b.capacity() == capacity,
            b.slot_count() == 0,
            b.active_count() == 0,
    {
        EventBus { capacity, subs: Vec::new() }
    }

    /// Opens a new subscription and returns its slot index. The new
    /// subscriber starts with an empty buffer: notifications published before
    /// the subscription are not replayed. Existing subscribers are untouched.
    pub fn subscribe(&mut self) -> (id: usize)
        requires
            old(self).wf(),
        ensures
            final(self).wf(),
            id as int == old(self).slot_count(),
            !old(self).is_active(id as int),
            final(self).slot_count() == old(self).slot_count() + 1,
            final(self).capacity() == old(self).capacity(),
            final(self).is_active(id as int),
            final(self).pending(id as int) == Seq::<PluginUpdate>::empty(),
            !final(self).sub_lagged(id as int),
            forall|j: int|
                0 <= j < old(self).slot_count() ==> (#[trigger] final(self).is_active(j)
                <==> old(self).is_active(j)),
            forall|j: int|
                old(self).is_active(j)
                    ==> #[trigger] final(self).pending(j) == old(self).pending(j),
            forall|j: int|
                old(self).is_active(j)
                    ==> (#[trigger] final(self).sub_lagged(j) <==> old(self).sub_lagged(j)),
            final(self).active_count() == old(self).active_count() + 1,
    {
        let id = self.subs.len();
        self.subs.push(Some(SubQueue { pending: Vec::new(), lagged: false }));
        proof {
            assert(self.subs@.drop_last() =~= old(self).subs@);
            assert(self.subs@.last() is Some);
            assert forall|i: int| self.is_active(i) implies #[trigger] self.pending(i).len()
                <= self.capacity by {
                if i < old(self).subs@.len() {
                    assert(self.subs@[i] == old(self).subs@[i]);
                    assert(old(self).is_active(i));
                    assert(old(self).pending(i).len() <= old(self).capacity);
                }
            }
        }
        id
    }

    /// Tears a live subscription down. Other subscribers are untouched; the
    /// slot index is retired, never handed out again.
    pub fn unsubscribe(&mut self, id: usize)
        requires
            old(self).wf(),
            old(self).is_active(id as int),
        ensures
            final(self).wf(),
            final(self).slot_count() == old(self).slot_count(),
            final(self).capacity() == old(self).capacity(),
            !final(self).is_active(id as int),
            forall|j: int|
                0 <= j < old(self).slot_count() && j != id as int
                    ==> (#[trigger] final(self).is_active(j) <==> old(self).is_active(j)),
            forall|j: int|
                j != id as int && old(self).is_active(j)
                    ==> #[trigger] final(self).pending(j) == old(self).pending(j),
            forall|j: int|
                j != id as int && old(self).is_active(j)
                    ==> (#[trigger] final(self).sub_lagged(j) <==> old(self).sub_lagged(j)),
            final(self).active_count() == old(self).active_count() - 1,
    {
        self.subs.set(id, None);
        proof {
            lemma_count_active_update_none(old(self).subs@, id as int);
            assert forall|i: int| self.is_active(i) implies #[trigger] self.pending(i).len()
                <= self.capacity by {
                assert(self.subs@[i] == old(self).subs@[i]);
                assert(old(self).is_active(i));
                assert(old(self).pending(i).len() <= old(self).capacity);
            }
        }
    }
}

/// What one publish did: every subscriber live at the time of the call has
/// exactly the published notification appended to its buffer (dropping its
/// oldest unread one first when the buffer was full, and marking it lagged);
/// no subscription is opened or closed; the outcome reports to how many live
/// subscribers the notification was delivered, or that nobody was listening.
pub open spec fn publish_effect(
    pre: EventBus,
    post: EventBus,
    e: PluginUpdate,
    outcome: PublishOutcome,
) -> bool {
    &&& publish_state_effect(pre, post, e)
    &&& outcome == if pre.active_count() == 0 {
        PublishOutcome::NoSubscribers
    } else {
        PublishOutcome::Delivered(pre.active_count() as usize)
    }
}

/// The state part of [`publish_effect`], independent of the reported outcome.
pub open spec fn publish_state_effect(pre: EventBus, post: EventBus, e: PluginUpdate) -> bool {
    &&& post.wf()
    &&& post.capacity() == pre.capacity()
    &&& post.slot_count() == pre.slot_count()
    &&& forall|j: int| #[trigger] post.is_active(j) <==> pre.is_active(j)
    &&& forall|j: int|
        pre.is_active(j) ==> #[trigger] post.pending(j) == queue_after_publish(
            pre.pending(j),
            e,
            pre.capacity(),
        )
    &&& forall|j: int|
        pre.is_active(j) ==> (#[trigger] post.sub_lagged(j) <==> pre.sub_lagged(j) || pre.pending(
            j,
        ).len() >= pre.capacity())
    &&& post.active_count() == pre.active_count()
}

spec fn slot_published(pre: Option<SubQueue>, post: Option<SubQueue>, e: PluginUpdate, cap: int) -> bool {
    match pre {
        None => post is None,
        Some(q) => {
            &&& post is Some
            &&& post->Some_0.pending@ == queue_after_publish(q.pending@, e, cap)
            &&& (post->Some_0.lagged <==> q.lagged || q.pending@.len() >= cap)
        },
    }
}

impl EventBus {
    /// Delivers one notification to every live subscriber and reports to how
    /// many it went. The publisher never blocks and never fails: a subscriber
    /// whose buffer is full loses its oldest unread notification instead, and
    /// a bus with no subscribers simply reports that nobody was listening.
    pub fn publish(&mut self, e: PluginUpdate) -> (outcome: PublishOutcome)
        requires
            old(self).wf(),
        ensures
            publish_effect(*old(self), *final(self), e, outcome),
    {
        let ghost pre = *old(self);
        let mut count: usize = 0;
        let mut i: usize = 0;
        while i < self.subs.len()
            invariant
                pre == *old(self),
                pre.wf(),
                self.capacity == pre.capacity,
                self.subs@.len() == pre.subs@.len(),
                i <= self.subs@.len(),
                count <= i,
                count as int == count_active(pre.subs@.take(i as int)),
                forall|j: int| i <= j < self.subs@.len() ==> #[trigger] self.subs@[j] == pre.subs@[j],
                forall|j: int|
                    0 <= j < i ==> slot_published(
                        pre.subs@[j],
                        #[trigger] self.subs@[j],
                        e,
                        pre.capacity as int,
                    ),
            decreases self.subs@.len() - i,
        {
            let ghost subs_at_entry = self.subs@;
            let mut slot: Option<SubQueue> = None;
            self.subs.set_and_swap(i, &mut slot);
            let new_slot = match slot {
                None => None,
                Some(mut q) => {
                    proof {
                        assert(pre.is_active(i as int));
                        assert(pre.pending(i as int).len() <= pre.capacity);
                    }
                    if q.pending.len() >= self.capacity {
                        q.pending.remove(0);
                        q.lagged = true;
                        proof {
                            assert(q.pending@ =~= pre.pending(i as int).drop_first());
                        }
                    }
                    q.pending.push(e);
                    count += 1;
                    Some(q)
                },
            };
            self.subs.set(i, new_slot);
            proof {
                assert(self.subs@ =~= subs_at_entry.update(i as int, new_slot));
                assert(slot_published(pre.subs@[i as int], self.subs@[i as int], e, pre.capacity as int));
                assert(pre.subs@.take(i + 1).drop_last() =~= pre.subs@.take(i as int));
                assert(pre.subs@.take(i + 1).last() == pre.subs@[i as int]);
            }
            i += 1;
        }
        proof {
            assert(pre.subs@.take(self.subs@.len() as int) =~= pre.subs@);
            lemma_count_active_pointwise(pre.subs@, self.subs@);
            assert forall|j: int| #[trigger] self.is_active(j) <==> pre.is_active(j) by {
                if 0 <= j < self.subs@.len() {
                    assert(slot_published(pre.subs@[j], self.subs@[j], e, pre.capacity as int));
                }
            }
            assert forall|j: int| pre.is_active(j) implies #[trigger] self.pending(j)
                == queue_after_publish(pre.pending(j), e, pre.capacity()) by {
                assert(slot_published(pre.subs@[j], self.subs@[j], e, pre.capacity as int));
            }
            assert forall|j: int| pre.is_active(j) implies (#[trigger] self.sub_lagged(j)
                <==> pre.sub_lagged(j) || pre.pending(j).len() >= pre.capacity()) by {
                assert(slot_published(pre.subs@[j], self.subs@[j], e, pre.capacity as int));
            }
            assert forall|j: int| self.is_active(j) implies #[trigger] self.pending(j).len()
                <= self.capacity by {
                assert(slot_published(pre.subs@[j], self.subs@[j], e, pre.capacity as int));
                assert(pre.pending(j).len() <= pre.capacity);
            }
        }
        if count == 0 {
            PublishOutcome::NoSubscribers
        } else {
            PublishOutcome::Delivered(count)
        }
    }

    /// Takes the oldest buffered notification for subscriber `id`, if any.
    /// A subscriber that has lagged is told so instead of being handed a
    /// sequence with a gap; nothing else on the bus is touched either way.
    pub fn try_recv(&mut self, id: usize) -> (r: RecvOutcome)
        requires
            old(self).wf(),
            old(self).is_active(id as int),
        ensures
            final(self).wf(),
            final(self).capacity() == old(self).capacity(),
            final(self).slot_count() == old(self).slot_count(),
            forall|j: int| #[trigger] final(self).is_active(j) <==> old(self).is_active(j),
            forall|j: int|
                j != id as int && old(self).is_active(j)
                    ==> #[trigger] final(self).pending(j) == old(self).pending(j),
            forall|j: int|
                j != id as int && old(self).is_active(j)
                    ==> (#[trigger] final(self).sub_lagged(j) <==> old(self).sub_lagged(j)),
            final(self).sub_lagged(id as int) <==> old(self).sub_lagged(id as int),
            r == RecvOutcome::Lagged <==> old(self).sub_lagged(id as int),
            r == RecvOutcome::Empty <==> !old(self).sub_lagged(id as int) && old(self).pending(
                id as int,
            ).len() == 0,
            !old(self).sub_lagged(id as int) && old(self).pending(id as int).len() > 0 ==> r
                == RecvOutcome::Event(old(self).pending(id as int)[0]) && final(self).pending(
                id as int,
            ) == old(self).pending(id as int).drop_first(),
            old(self).sub_lagged(id as int) || old(self).pending(id as int).len() == 0
                ==> final(self).pending(id as int) == old(self).pending(id as int),
            final(self).active_count() == old(self).active_count(),
    {
        let ghost pre = *old(self);
        let mut slot: Option<SubQueue> = None;
        self.subs.set_and_swap(id, &mut slot);
        let (r, new_slot) = match slot {
            None => (RecvOutcome::Empty, None),
            Some(mut q) => {
                if q.lagged {
                    (RecvOutcome::Lagged, Some(q))
                } else if q.pending.len() == 0 {
                    (RecvOutcome::Empty, Some(q))
                } else {
                    let head = q.pending.remove(0);
                    proof {
                        assert(q.pending@ =~= pre.pending(id as int).drop_first());
                    }
                    (RecvOutcome::Event(head), Some(q))
                }
            },
        };
        self.subs.set(id, new_slot);
        proof {
            assert(self.subs@ =~= pre.subs@.update(id as int, new_slot));
            lemma_count_active_pointwise(pre.subs@, self.subs@);
            assert forall|j: int| self.is_active(j) implies #[trigger] self.pending(j).len()
                <= self.capacity by {
                assert(pre.is_active(j));
                assert(pre.pending(j).len() <= pre.capacity);
                if j != id as int {
                    assert(self.subs@[j] == pre.subs@[j]);
                }
            }
        }
        r
    }
}

/// One publish hands a subscriber exactly one new notification: the
/// published one, appended after everything already buffered; nothing else is
/// added, and only a full buffer loses (exactly) its oldest entry to make
/// room.
pub proof fn lemma_publish_appends_exactly_one(q: Seq<PluginUpdate>, e: PluginUpdate, cap: int)
    requires
        cap >= 1,
        q.len() <= cap,
    ensures
        queue_after_publish(q, e, cap).last() == e,
        queue_after_publish(q, e, cap).len() == if q.len() < cap {
            q.len() + 1
        } else {
            q.len()
        },
        queue_after_publish(q, e, cap).drop_last() == if q.len() < cap {
            q
        } else {
            q.drop_first()
        },
{
    if q.len() < cap {
        assert(q.push(e).drop_last() =~= q);
    } else {
        assert(q.drop_first().push(e).drop_last() =~= q.drop_first());
    }
}

/// A subscriber that keeps up receives notifications strictly in publish
/// order: publishing `es` to a subscriber whose buffer `q` never overflows
/// leaves its buffer holding `q` followed by `es`, in order, and `try_recv`
/// hands out the buffer front first.
pub proof fn lemma_events_delivered_in_publish_order(
    q: Seq<PluginUpdate>,
    es: Seq<PluginUpdate>,
    cap: int,
)
    requires
        cap >= 1,
        q.len() + es.len() <= cap,
    ensures
        queue_after_publishes(q, es, cap) == q + es,
    decreases es.len(),
{
    if es.len() == 0 {
        assert(q + es =~= q);
    } else {
        assert(queue_after_publish(q, es[0], cap) == q.push(es[0]));
        lemma_events_delivered_in_publish_order(q.push(es[0]), es.drop_first(), cap);
        assert(q.push(es[0]) + es.drop_first() =~= q + es);
    }
}

proof fn lemma_count_active_pointwise(a: Seq<Option<SubQueue>>, b: Seq<Option<SubQueue>>)
    requires
        a.len() == b.len(),
        forall|i: int| 0 <= i < a.len() ==> (#[trigger] a[i] is Some <==> #[trigger] b[i] is Some),
    ensures
        count_active(a) == count_active(b),
    decreases a.len(),
{
    if a.len() > 0 {
        assert forall|i: int|
            0 <= i < a.drop_last().len() implies (#[trigger] a.drop_last()[i] is Some
            <==> #[trigger] b.drop_last()[i] is Some) by {
            assert(a.drop_last()[i] == a[i]);
            assert(b.drop_last()[i] == b[i]);
        }
        lemma_count_active_pointwise(a.drop_last(), b.drop_last());
        assert(a.last() == a[a.len() - 1]);
        assert(b.last() == b[b.len() - 1]);
    }
}

proof fn lemma_count_active_update_none(s: Seq<Option<SubQueue>>, i: int)
    requires
        0 <= i < s.len(),
        s[i] is Some,
    ensures
        count_active(s.update(i, None)) == count_active(s) - 1,
    decreases s.len(),
{
    if i == s.len() - 1 {
        assert(s.update(i, None).drop_last() =~= s.drop_last());
        assert(s.update(i, None).last() is None);
    } else {
        lemma_count_active_update_none(s.drop_last(), i);
        assert(s.update(i, None).drop_last() =~= s.drop_last().update(i, None));
        assert(s.update(i, None).last() == s.last());
    }
}

} // verus!
