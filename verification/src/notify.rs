//! The notifier: turns each notification event into a full-state snapshot
//! and fans it out to every currently-registered subscriber. Each subscriber
//! owns a bounded buffer; when a buffer is full the oldest buffered snapshot
//! is dropped in favour of the newest, which is safe because a snapshot is
//! an idempotent full-state replacement, not a diff. A subscriber registered
//! after a publication never sees that snapshot: there is no replay.

use crate::command::ui::{UICommand, UICommandModel, UITodoItem, UITodoList};
use crate::dispatch::NotifyCommand;
use crate::store::{items_model, ItemModel, TodoItem};
use vstd::prelude::*;

verus! {

/// The model of the snapshot built for event `e` over the given items.
pub open spec fn snapshot_model(e: NotifyCommand, items: Seq<ItemModel>) -> UICommandModel {
    match e {
        NotifyCommand::List => UICommandModel::List(items),
        NotifyCommand::Create(_) => UICommandModel::Create(items),
        NotifyCommand::Update(_) => UICommandModel::Update(items),
        NotifyCommand::Delete(_) => UICommandModel::Delete(items),
    }
}

/// Build the snapshot for event `e`: the full current list, tagged with the
/// kind of operation that produced it.
pub fn make_snapshot(e: NotifyCommand, items: Vec<TodoItem>) -> (r: UICommand)
    ensures
        r@ == snapshot_model(e, items_model(items@)),
{
    let mut list: UITodoList = Vec::new();
    let mut i: usize = 0;
    while i < items.len()
        invariant
            i <= items.len(),
            list@.len() == i as int,
            forall|k: int| 0 <= k < i ==> (#[trigger] list@[k])@ == items@[k]@,
        decreases items.len() - i,
    {
        list.push(UITodoItem::of_item(&items[i]));
        i += 1;
    }
    proof {
        assert(crate::command::ui::ui_items_model(list@) =~= items_model(items@));
    }
    match e {
        NotifyCommand::List => UICommand::List(list),
        NotifyCommand::Create(_) => UICommand::Create(list),
        NotifyCommand::Update(_) => UICommand::Update(list),
        NotifyCommand::Delete(_) => UICommand::Delete(list),
    }
}

/// Mathematical model of one subscriber: its pending snapshots, oldest
/// first, and the bound of its buffer.
pub ghost struct SubscriberModel {
    pub queue: Seq<UICommandModel>,
    pub capacity: usize,
}

/// Mathematical model of the notifier: the registered subscribers, in
/// registration order.
pub ghost struct NotifierModel {
    pub subs: Seq<SubscriberModel>,
}

/// Every buffer holds room for at least one snapshot and never more than
/// its bound.
pub open spec fn notifier_wf(n: NotifierModel) -> bool {
    forall|i: int|
        0 <= i < n.subs.len() ==> (#[trigger] n.subs[i]).capacity >= 1 && n.subs[i].queue.len()
            <= n.subs[i].capacity
}

/// One subscriber's buffer after a publication: the snapshot goes to the
/// back; if the buffer was full, the oldest buffered snapshot leaves.
pub open spec fn buffer_after_publish(s: SubscriberModel, c: UICommandModel) -> SubscriberModel {
    if s.queue.len() < s.capacity {
        SubscriberModel { queue: s.queue.push(c), capacity: s.capacity }
    } else {
        SubscriberModel { queue: s.queue.drop_first().push(c), capacity: s.capacity }
    }
}

/// The notifier after a publication: every registered subscriber receives
/// the same snapshot.
pub open spec fn publish_step(n: NotifierModel, c: UICommandModel) -> NotifierModel {
    NotifierModel { subs: n.subs.map_values(|s: SubscriberModel| buffer_after_publish(s, c)) }
}

/// The notifier after a registration: a new subscriber with an empty buffer
/// joins at the end; the others are untouched.
pub open spec fn subscribe_step(n: NotifierModel, capacity: usize) -> NotifierModel {
    NotifierModel {
        subs: n.subs.push(SubscriberModel { queue: Seq::empty(), capacity: capacity }),
    }
}

/// One subscriber's bounded buffer of pending snapshots.
pub struct SubscriberBuffer {
    queue: Vec<UICommand>,
    capacity: usize,
}

impl View for SubscriberBuffer {
    type V = SubscriberModel;

    closed spec fn view(&self) -> SubscriberModel {
        SubscriberModel {
            queue: self.queue@.map_values(|c: UICommand| c@),
            capacity: self.capacity,
        }
    }
}

impl SubscriberBuffer {
    /// A fresh, empty buffer.
    fn new(capacity: usize) -> (r: SubscriberBuffer)
        requires
            capacity >= 1,
        ensures
            r@.queue =~= Seq::<UICommandModel>::empty(),
            r@.capacity == capacity,
    {
        SubscriberBuffer { queue: Vec::new(), capacity }
    }

    /// This buffer after a publication of `snap`.
    fn after_publish(&self, snap: &UICommand) -> (r: SubscriberBuffer)
        requires
            self@.capacity >= 1,
            self@.queue.len() <= self@.capacity,
        ensures
            r@ == buffer_after_publish(self@, snap@),
            r@.queue.len() <= r@.capacity,
    {
        let start: usize = if self.queue.len() < self.capacity {
            0
        } else {
            1
        };
        let mut q: Vec<UICommand> = Vec::new();
        let mut i: usize = start;
        while i < self.queue.len()
            invariant
                start <= i <= self.queue.len(),
                q@.len() == i - start,
                forall|k: int| 0 <= k < q@.len() ==> (#[trigger] q@[k])@ == self.queue@[k + start]@,
            decreases self.queue.len() - i,
        {
            q.push(self.queue[i].duplicate());
            i += 1;
        }
        q.push(snap.duplicate());
        let r = SubscriberBuffer { queue: q, capacity: self.capacity };
        proof {
            if start == 0 {
                assert(r@.queue =~= self@.queue.push(snap@));
            } else {
                assert(r@.queue =~= self@.queue.drop_first().push(snap@));
            }
        }
        r
    }

    /// The oldest pending snapshot, if any, removed from the buffer.
    fn take_first(&self) -> (r: (Option<UICommand>, SubscriberBuffer))
        ensures
            self@.queue.len() == 0 ==> r.0 is None && r.1@ == self@,
            self@.queue.len() > 0 ==> (r.0 matches Some(c) && c@ == self@.queue[0] && r.1@
                == (SubscriberModel { queue: self@.queue.drop_first(), capacity: self@.capacity })),
    {
        if self.queue.len() == 0 {
            let copy = SubscriberBuffer { queue: Vec::new(), capacity: self.capacity };
            proof {
                assert(copy@.queue =~= self@.queue);
            }
            return (None, copy);
        }
        let first = self.queue[0].duplicate();
        let mut rest: Vec<UICommand> = Vec::new();
        let mut i: usize = 1;
        while i < self.queue.len()
            invariant
                1 <= i <= self.queue.len(),
                rest@.len() == i - 1,
                forall|k: int| 0 <= k < rest@.len() ==> (#[trigger] rest@[k])@ == self.queue@[k + 1]@,
            decreases self.queue.len() - i,
        {
            rest.push(self.queue[i].duplicate());
            i += 1;
        }
        let r = SubscriberBuffer { queue: rest, capacity: self.capacity };
        proof {
            assert(r@.queue =~= self@.queue.drop_first());
        }
        (Some(first), r)
    }
}

/// The broadcast registry: every registered subscriber, each with its own
/// bounded buffer of pending snapshots. Registration is append-only; a
/// subscriber is addressed by the key `subscribe` returned.
pub struct Notifier {
    subs: Vec<SubscriberBuffer>,
}

impl View for Notifier {
    type V = NotifierModel;

    closed spec fn view(&self) -> NotifierModel {
        NotifierModel { subs: self.subs@.map_values(|s: SubscriberBuffer| s@) }
    }
}

impl Notifier {
    /// The notifier's invariant.
    pub open spec fn wf(&self) -> bool {
        notifier_wf(self@)
    }

    /// A notifier with no subscribers.
    pub fn new() -> (r: Notifier)
        ensures
            r.wf(),
            r@.subs =~= Seq::<SubscriberModel>::empty(),
    {
        Notifier { subs: Vec::new() }
    }

    /// The number of registered subscribers.
    pub fn subscriber_count(&self) -> (r: usize)
        ensures
            r == self@.subs.len(),
    {
        self.subs.len()
    }

    /// Register a new subscriber with a buffer bounded by `capacity`, and
    /// return its key. The new subscriber's buffer starts empty: snapshots
    /// published earlier are never replayed to it.
    pub fn subscribe(&mut self, capacity: usize) -> (key: usize)
        requires
            old(self).wf(),
            capacity >= 1,
        ensures
            final(self).wf(),
            final(self)@ == subscribe_step(old(self)@, capacity),
            key == old(self)@.subs.len(),
            final(self)@.subs[key as int].queue.len() == 0,
    {
        let key = self.subs.len();
        self.subs.push(SubscriberBuffer::new(capacity));
        proof {
            assert(self@.subs =~= subscribe_step(old(self)@, capacity).subs);
        }
        key
    }

    /// Publish one snapshot to every registered subscriber: each receives
    /// an identical copy at the back of its buffer, dropping its oldest
    /// pending snapshot if the buffer was full. A full or slow subscriber
    /// never keeps the others from being served.
    pub fn publish(&mut self, snap: &UICommand)
        requires
            old(self).wf(),
        ensures
            final(self).wf(),
            final(self)@ == publish_step(old(self)@, snap@),
    {
        let mut i: usize = 0;
        while i < self.subs.len()
            invariant
                old(self).wf(),
                i <= self.subs.len(),
                self@.subs.len() == old(self)@.subs.len(),
                forall|k: int|
                    i <= k < self@.subs.len() ==> (#[trigger] self@.subs[k]) == old(self)@.subs[k],
                forall|k: int|
                    0 <= k < i ==> (#[trigger] self@.subs[k]) == buffer_after_publish(
                        old(self)@.subs[k],
                        snap@,
                    ),
            decreases self.subs.len() - i,
        {
            let ghost pre = self@;
            proof {
                assert(self@.subs[i as int] == self.subs@[i as int]@);
            }
            let updated = self.subs[i].after_publish(snap);
            self.subs[i] = updated;
            proof {
                assert(self@.subs =~= pre.subs.update(i as int, updated@));
            }
            i += 1;
        }
        proof {
            assert(self@.subs =~= publish_step(old(self)@, snap@).subs);
        }
    }

    /// Hand the subscriber with key `key` its oldest pending snapshot, if
    /// it has one.
    pub fn poll(&mut self, key: usize) -> (r: Option<UICommand>)
        requires
            old(self).wf(),
            key < old(self)@.subs.len(),
        ensures
            final(self).wf(),
            final(self)@.subs.len() == old(self)@.subs.len(),
            forall|k: int|
                0 <= k < old(self)@.subs.len() && k != key ==> (#[trigger] final(self)@.subs[k])
                    == old(self)@.subs[k],
            old(self)@.subs[key as int].queue.len() == 0 ==> r is None && final(self)@ == old(
                self,
            )@,
            old(self)@.subs[key as int].queue.len() > 0 ==> (r matches Some(c) && c@ == old(
                self,
            )@.subs[key as int].queue[0] && final(self)@.subs[key as int]
                == (SubscriberModel {
                queue: old(self)@.subs[key as int].queue.drop_first(),
                capacity: old(self)@.subs[key as int].capacity,
            })),
    {
        proof {
            assert(self@.subs[key as int] == self.subs@[key as int]@);
        }
        let (first, rest) = self.subs[key].take_first();
        match first {
            None => {
                proof {
                    assert(self@ =~= old(self)@);
                }
                None
            },
            Some(c) => {
                self.subs[key] = rest;
                proof {
                    assert(self@.subs =~= old(self)@.subs.update(key as int, rest@));
                }
                Some(c)
            },
        }
    }
}

/// Two subscribers registered at the moment of a publication both receive
/// an identical snapshot: the same items, in the same order.
pub proof fn lemma_publish_identical(n: NotifierModel, c: UICommandModel, a: int, b: int)
    requires
        notifier_wf(n),
        0 <= a < n.subs.len(),
        0 <= b < n.subs.len(),
    ensures
        publish_step(n, c).subs[a].queue.last() == c,
        publish_step(n, c).subs[a].queue.last() == publish_step(n, c).subs[b].queue.last(),
{
}

/// A subscriber registered after a publication does not hold that snapshot
/// — or any other — until something is published to it; it must issue its
/// own `List` to materialize the current state.
pub proof fn lemma_late_subscriber_sees_nothing(
    n: NotifierModel,
    c: UICommandModel,
    capacity: usize,
)
    requires
        notifier_wf(n),
        capacity >= 1,
    ensures
        subscribe_step(publish_step(n, c), capacity).subs.last().queue.len() == 0,
{
}

} // verus!
