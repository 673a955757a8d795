//! The assembled pipeline: the entity store and the broadcast registry,
//! driven by one control flow. The surrounding process owns the channel
//! plumbing: it receives each command from the ingress channel, hands it to
//! `handle` — one at a time, in arrival order, which is what serializes all
//! mutations — and forwards published snapshots to the subscribers'
//! transports.

use crate::clock::now_millis;
use crate::command::ui::UICommand;
use crate::command::CoreCommand;
use crate::dispatch::{apply_command, command_event, command_model, dispatch};
use crate::notify::{
    lemma_publish_identical, make_snapshot, notifier_wf, publish_step, snapshot_model,
    subscribe_step, Notifier, NotifierModel, SubscriberModel,
};
use crate::store::{store_wf, EntityStore, StoreModel};
use vstd::prelude::*;

verus! {

/// Mathematical model of the pipeline: the store and the notifier.
pub ghost struct PipelineModel {
    pub store: StoreModel,
    pub notifier: NotifierModel,
}

/// What one call of `handle` does, under clock reading `now`: the store
/// takes one command step; if the command yields an event, the snapshot of
/// the resulting full state is published to every subscriber and returned,
/// and otherwise — a mutation addressed to an absent id — nothing changes
/// and nothing is broadcast.
pub open spec fn handle_spec(
    pre: PipelineModel,
    post: PipelineModel,
    cmd: CoreCommand,
    r: Option<UICommand>,
    now: i64,
) -> bool {
    let m = command_model(cmd, now);
    &&& post.store == apply_command(pre.store, m)
    &&& match command_event(pre.store, m) {
        None => r is None && post.notifier == pre.notifier,
        Some(e) => (r matches Some(s) && s@ == snapshot_model(e, post.store.items)
            && post.notifier == publish_step(pre.notifier, s@)),
    }
}

/// The process-wide reactive state container.
pub struct Pipeline {
    store: EntityStore,
    notifier: Notifier,
}

impl View for Pipeline {
    type V = PipelineModel;

    closed spec fn view(&self) -> PipelineModel {
        PipelineModel { store: self.store@, notifier: self.notifier@ }
    }
}

impl Pipeline {
    /// The pipeline's invariant.
    pub open spec fn wf(&self) -> bool {
        store_wf(self@.store) && notifier_wf(self@.notifier)
    }

    /// Whether a fresh id can still be allocated.
    pub open spec fn can_allocate(&self) -> bool {
        self@.store.next_id < u64::MAX
    }

    /// Whether a fresh id can still be allocated: the 64-bit id counter is
    /// not exhausted. Handling a `Create` requires this.
    pub fn id_space_left(&self) -> (r: bool)
        ensures
            r == self.can_allocate(),
    {
        self.store.id_space_left()
    }

    /// A pipeline with an empty store and no subscribers.
    pub fn new() -> (p: Pipeline)
        ensures
            p.wf(),
            p@.store.items.len() == 0,
            p@.store.next_id == 0,
            p@.notifier.subs.len() == 0,
    {
        Pipeline { store: EntityStore::new(), notifier: Notifier::new() }
    }

    /// Register a subscriber with a buffer bounded by `capacity`; its
    /// buffer starts empty, so it sees no snapshot published before this —
    /// to materialize the current state it must issue its own `List`.
    pub fn subscribe(&mut self, capacity: usize) -> (key: usize)
        requires
            old(self).wf(),
            capacity >= 1,
        ensures
            final(self).wf(),
            final(self)@.store == old(self)@.store,
            final(self)@.notifier == subscribe_step(old(self)@.notifier, capacity),
            key == old(self)@.notifier.subs.len(),
            final(self)@.notifier.subs[key as int].queue.len() == 0,
    {
        self.notifier.subscribe(capacity)
    }

    /// The number of registered subscribers.
    pub fn subscriber_count(&self) -> (r: usize)
        ensures
            r == self@.notifier.subs.len(),
    {
        self.notifier.subscriber_count()
    }

    /// Hand the subscriber with key `key` its oldest pending snapshot, if
    /// it has one.
    pub fn poll(&mut self, key: usize) -> (r: Option<UICommand>)
        requires
            old(self).wf(),
            key < old(self)@.notifier.subs.len(),
        ensures
            final(self).wf(),
            final(self)@.store == old(self)@.store,
            final(self)@.notifier.subs.len() == old(self)@.notifier.subs.len(),
            forall|k: int|
                0 <= k < old(self)@.notifier.subs.len() && k != key
                    ==> (#[trigger] final(self)@.notifier.subs[k]) == old(self)@.notifier.subs[k],
            old(self)@.notifier.subs[key as int].queue.len() == 0
                ==> r is None && final(self)@ == old(self)@,
            old(self)@.notifier.subs[key as int].queue.len() > 0
                ==> (r matches Some(c) && c@ == old(self)@.notifier.subs[key as int].queue[0]
                    && final(self)@.notifier.subs[key as int] == (SubscriberModel {
                        queue: old(self)@.notifier.subs[key as int].queue.drop_first(),
                        capacity: old(self)@.notifier.subs[key as int].capacity,
                    })),
    {
        self.notifier.poll(key)
    }

    /// Apply one command under the given clock reading, publish the
    /// resulting snapshot to every subscriber, and also return it for the
    /// process's own forwarding. A mutation addressed to an absent id is
    /// dropped silently: nothing changes and nothing is broadcast.
    pub fn handle_at(&mut self, cmd: CoreCommand, now: i64) -> (r: Option<UICommand>)
        requires
            old(self).wf(),
            cmd matches CoreCommand::Create(_) ==> old(self).can_allocate(),
        ensures
            final(self).wf(),
            handle_spec(old(self)@, final(self)@, cmd, r, now),
            r is None ==> final(self)@ == old(self)@,
            r matches Some(s) ==> s@.items() == final(self)@.store.items,
    {
        let event = dispatch(&mut self.store, cmd, now);
        match event {
            None => None,
            Some(e) => {
                let items = self.store.list();
                let snap = make_snapshot(e, items);
                self.notifier.publish(&snap);
                Some(snap)
            },
        }
    }

    /// Apply one command at the current wall-clock time. The clock reading
    /// is outside this library's control, so the contract holds for some
    /// reading; everything else about the step is exact.
    pub fn handle(&mut self, cmd: CoreCommand) -> (r: Option<UICommand>)
        requires
            old(self).wf(),
            cmd matches CoreCommand::Create(_) ==> old(self).can_allocate(),
        ensures
            final(self).wf(),
            exists|now: i64| #[trigger] handle_spec(old(self)@, final(self)@, cmd, r, now),
            r is None ==> final(self)@ == old(self)@,
            r matches Some(s) ==> s@.items() == final(self)@.store.items,
    {
        let now = now_millis();
        let r = self.handle_at(cmd, now);
        proof {
            assert(handle_spec(old(self)@, self@, cmd, r, now));
        }
        r
    }
}

/// Two subscribers registered before a command that yields a snapshot both
/// receive an identical one: after the step, the same snapshot — the one
/// the call returned — stands at the back of both buffers.
pub proof fn lemma_handle_publishes_identically(
    pre: PipelineModel,
    post: PipelineModel,
    cmd: CoreCommand,
    s: UICommand,
    now: i64,
    a: int,
    b: int,
)
    requires
        handle_spec(pre, post, cmd, Some(s), now),
        notifier_wf(pre.notifier),
        0 <= a < pre.notifier.subs.len(),
        0 <= b < pre.notifier.subs.len(),
    ensures
        post.notifier.subs[a].queue.last() == s@,
        post.notifier.subs[a].queue.last() == post.notifier.subs[b].queue.last(),
{
    lemma_publish_identical(pre.notifier, s@, a, b);
}

} // verus!
