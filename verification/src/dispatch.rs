//! The dispatcher: the single writer that applies each ingress command to
//! the entity store and translates it into at most one notification event.
//! A command that addresses an absent id is dropped silently: the store is
//! left unchanged and no event fires.

use crate::command::CoreCommand;
use crate::store::{
    create_step, created_item, delete_step, has_id, index_of_id, store_wf,
    update_step, updated_item, EntityStore, StoreModel,
};
use vstd::prelude::*;

verus! {

/// The internal notification event describing what an accepted command did;
/// mutations carry the id of the item concerned.
#[derive(Debug, Clone, Copy, PartialEq, Eq, Structural)]
pub enum NotifyCommand {
    List,
    Create(u64),
    Update(u64),
    Delete(u64),
}

/// The model of an optional replacement name.
pub open spec fn opt_name_model(n: Option<String>) -> Option<Seq<char>> {
    match n {
        Some(s) => Some(s@),
        None => None,
    }
}

/// Mathematical model of a command, together with the clock reading under
/// which it is applied.
pub ghost enum CommandModel {
    List,
    Create { name: Seq<char>, now: i64 },
    Update { id: u64, name: Option<Seq<char>>, done: Option<bool>, now: i64 },
    Delete { id: u64 },
}

/// The model of an ingress command under clock reading `now`.
pub open spec fn command_model(c: CoreCommand, now: i64) -> CommandModel {
    match c {
        CoreCommand::List => CommandModel::List,
        CoreCommand::Create(p) => CommandModel::Create { name: p.name@, now },
        CoreCommand::Update(p) => CommandModel::Update {
            id: p.entity,
            name: opt_name_model(p.name),
            done: p.done,
            now,
        },
        CoreCommand::Delete(id) => CommandModel::Delete { id },
    }
}

/// The store after one command.
pub open spec fn apply_command(v: StoreModel, c: CommandModel) -> StoreModel {
    match c {
        CommandModel::List => v,
        CommandModel::Create { name, now } => create_step(v, name, now),
        CommandModel::Update { id, name, done, now } => update_step(v, id, name, done, now),
        CommandModel::Delete { id } => delete_step(v, id),
    }
}

/// The notification event one command yields: exactly one for `List` and
/// `Create`, one for `Update`/`Delete` addressed to a present id, and none
/// otherwise.
pub open spec fn command_event(v: StoreModel, c: CommandModel) -> Option<NotifyCommand> {
    match c {
        CommandModel::List => Some(NotifyCommand::List),
        CommandModel::Create { .. } => Some(NotifyCommand::Create(v.next_id)),
        CommandModel::Update { id, .. } => if has_id(v.items, id) {
            Some(NotifyCommand::Update(id))
        } else {
            None
        },
        CommandModel::Delete { id } => if has_id(v.items, id) {
            Some(NotifyCommand::Delete(id))
        } else {
            None
        },
    }
}

/// Apply one command to the store under clock reading `now`, and return the
/// notification event it produced, if any. Commands are meant to be fed to
/// this function one at a time, in arrival order, by a single control flow;
/// that serialization is what keeps the store's invariant global.
pub fn dispatch(store: &mut EntityStore, cmd: CoreCommand, now: i64) -> (r: Option<NotifyCommand>)
    requires
        old(store).wf(),
        cmd matches CoreCommand::Create(_) ==> old(store).can_allocate(),
    ensures
        final(store).wf(),
        final(store)@ == apply_command(old(store)@, command_model(cmd, now)),
        r == command_event(old(store)@, command_model(cmd, now)),
        r is None ==> final(store)@ == old(store)@,
{
    match cmd {
        CoreCommand::List => Some(NotifyCommand::List),
        CoreCommand::Create(p) => {
            let item = store.create(p.name, now);
            Some(NotifyCommand::Create(item.id))
        },
        CoreCommand::Update(p) => {
            match store.update(p.entity, p.name, p.done, now) {
                Ok(item) => Some(NotifyCommand::Update(item.id)),
                Err(_) => None,
            }
        },
        CoreCommand::Delete(id) => {
            match store.delete(id) {
                Ok(_) => Some(NotifyCommand::Delete(id)),
                Err(_) => None,
            }
        },
    }
}

/// Creation preserves the store invariant; the new item stands at the end
/// and the id counter moves up by one.
pub proof fn lemma_create_step_wf(v: StoreModel, name: Seq<char>, now: i64)
    requires
        store_wf(v),
        v.next_id < u64::MAX,
    ensures
        store_wf(create_step(v, name, now)),
        create_step(v, name, now).next_id == v.next_id + 1,
        create_step(v, name, now).items == v.items.push(created_item(v, name, now)),
{
    let w = create_step(v, name, now);
    assert forall|i: int, j: int| 0 <= i < j < w.items.len() implies w.items[i].id
        < w.items[j].id by {
        if j < v.items.len() {
        } else {
            assert(w.items[i] == v.items[i]);
            assert(w.items[j] == created_item(v, name, now));
        }
    }
    assert forall|i: int, j: int| 0 <= i < j < w.items.len() implies w.items[i].created_at
        <= w.items[j].created_at by {
        if j < v.items.len() {
        } else {
            assert(w.items[i] == v.items[i]);
            assert(v.items[i].created_at <= v.items.last().created_at);
        }
    }
}

/// A partial update preserves the store invariant; ids, order and the id
/// counter are untouched.
pub proof fn lemma_update_step_wf(
    v: StoreModel,
    id: u64,
    name: Option<Seq<char>>,
    done: Option<bool>,
    now: i64,
)
    requires
        store_wf(v),
    ensures
        store_wf(update_step(v, id, name, done, now)),
        update_step(v, id, name, done, now).next_id == v.next_id,
        update_step(v, id, name, done, now).items.len() == v.items.len(),
{
    if has_id(v.items, id) {
        let i = index_of_id(v.items, id);
        let w = update_step(v, id, name, done, now);
        assert(w.items == v.items.update(i, updated_item(v.items[i], name, done, now)));
        assert forall|k: int| 0 <= k < w.items.len() implies #[trigger] w.items[k].id
            == v.items[k].id && w.items[k].created_at == v.items[k].created_at by {
            if k != i {
                assert(w.items[k] == v.items[k]);
            }
        }
    }
}

/// Deletion preserves the store invariant; the surviving items keep their
/// order and the id counter is untouched.
pub proof fn lemma_delete_step_wf(v: StoreModel, id: u64)
    requires
        store_wf(v),
    ensures
        store_wf(delete_step(v, id)),
        delete_step(v, id).next_id == v.next_id,
{
    if has_id(v.items, id) {
        let i = index_of_id(v.items, id);
        let w = delete_step(v, id);
        assert(w.items == v.items.remove(i));
        assert forall|k: int| 0 <= k < w.items.len() implies (#[trigger] w.items[k]) == (if k < i {
            v.items[k]
        } else {
            v.items[k + 1]
        }) by {}
    }
}

/// One command preserves the store invariant, and never lowers the id
/// counter (nor raises it by more than one).
pub proof fn lemma_apply_command_wf(v: StoreModel, c: CommandModel)
    requires
        store_wf(v),
        c matches CommandModel::Create { .. } ==> v.next_id < u64::MAX,
    ensures
        store_wf(apply_command(v, c)),
        v.next_id <= apply_command(v, c).next_id <= v.next_id + 1,
{
    match c {
        CommandModel::List => {},
        CommandModel::Create { name, now } => lemma_create_step_wf(v, name, now),
        CommandModel::Update { id, name, done, now } => lemma_update_step_wf(
            v,
            id,
            name,
            done,
            now,
        ),
        CommandModel::Delete { id } => lemma_delete_step_wf(v, id),
    }
}

/// The store after a run of commands, applied in order.
pub open spec fn apply_commands(v: StoreModel, cs: Seq<CommandModel>) -> StoreModel
    decreases cs.len(),
{
    if cs.len() == 0 {
        v
    } else {
        apply_commands(apply_command(v, cs[0]), cs.drop_first())
    }
}

/// A run of commands preserves the store invariant, and the id counter
/// never goes down (and goes up by at most one per command).
pub proof fn lemma_apply_commands_wf(v: StoreModel, cs: Seq<CommandModel>)
    requires
        store_wf(v),
        v.next_id + cs.len() <= u64::MAX,
    ensures
        store_wf(apply_commands(v, cs)),
        v.next_id <= apply_commands(v, cs).next_id <= v.next_id + cs.len(),
    decreases cs.len(),
{
    if cs.len() > 0 {
        lemma_apply_command_wf(v, cs[0]);
        lemma_apply_commands_wf(apply_command(v, cs[0]), cs.drop_first());
    }
}

/// An id once allocated — in particular the id of an item later deleted —
/// is never handed out again: whatever commands run afterwards, the item a
/// `Create` then inserts carries a different id.
pub proof fn lemma_id_never_reused(v: StoreModel, cs: Seq<CommandModel>, id: u64)
    requires
        store_wf(v),
        v.next_id + cs.len() <= u64::MAX,
        id < v.next_id,
    ensures
        ({
            let w = apply_commands(v, cs);
            forall|name: Seq<char>, now: i64|
                (#[trigger] created_item(w, name, now)).id != id
        }),
{
    lemma_apply_commands_wf(v, cs);
}

/// The store after a run of creations, one per name, at the given clock
/// readings.
pub open spec fn apply_creates(v: StoreModel, names: Seq<Seq<char>>, times: Seq<i64>) -> StoreModel
    decreases names.len(),
{
    if names.len() == 0 {
        v
    } else {
        apply_creates(create_step(v, names[0], times[0]), names.drop_first(), times.drop_first())
    }
}

/// After a run of `Create` commands with names `n1..nk`, the store — and so
/// the next `List` snapshot — holds exactly `k` more items: the old ones
/// unchanged, then one per name in issuance order, each not yet done; and
/// the invariant gives non-decreasing creation times across them.
pub proof fn lemma_create_sequence(v: StoreModel, names: Seq<Seq<char>>, times: Seq<i64>)
    requires
        store_wf(v),
        times.len() == names.len(),
        v.next_id + names.len() <= u64::MAX,
    ensures
        ({
            let w = apply_creates(v, names, times);
            &&& store_wf(w)
            &&& w.items.len() == v.items.len() + names.len()
            &&& forall|i: int|
                0 <= i < v.items.len() ==> (#[trigger] w.items[i]) == v.items[i]
            &&& forall|i: int|
                0 <= i < names.len() ==> (#[trigger] w.items[v.items.len() + i]).name == names[i]
            &&& forall|i: int|
                0 <= i < names.len() ==> (#[trigger] w.items[v.items.len() + i]).done == false
            &&& forall|i: int, j: int|
                0 <= i < j < w.items.len() ==> w.items[i].created_at <= w.items[j].created_at
        }),
    decreases names.len(),
{
    if names.len() > 0 {
        let v1 = create_step(v, names[0], times[0]);
        lemma_create_step_wf(v, names[0], times[0]);
        lemma_create_sequence(v1, names.drop_first(), times.drop_first());
        let w = apply_creates(v, names, times);
        assert forall|i: int| 0 <= i < names.len() implies (#[trigger] w.items[v.items.len()
            + i]).name == names[i] && (#[trigger] w.items[v.items.len() + i]).done == false by {
            if i == 0 {
                assert(w.items[v.items.len() as int] == v1.items[v.items.len() as int]);
            } else {
                assert(w.items[v1.items.len() + (i - 1)].name == names.drop_first()[i - 1]);
            }
        }
    }
}

} // verus!
