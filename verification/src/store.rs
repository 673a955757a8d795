//! The entity store: the authoritative, insertion-ordered collection of todo
//! items, owned exclusively by the dispatcher.

use vstd::prelude::*;

verus! {

/// Mathematical model of a single todo item.
pub ghost struct ItemModel {
    pub id: u64,
    pub name: Seq<char>,
    pub done: bool,
    pub created_at: i64,
    pub updated_at: Option<i64>,
}

/// A single todo item. `id` is unique and stable for the item's lifetime;
/// `created_at` is set once at creation; `updated_at` is set on every
/// mutation after creation.
#[derive(Debug, Clone)]
pub struct TodoItem {
    pub id: u64,
    pub name: String,
    pub done: bool,
    pub created_at: i64,
    pub updated_at: Option<i64>,
}

impl View for TodoItem {
    type V = ItemModel;

    open spec fn view(&self) -> ItemModel {
        ItemModel {
            id: self.id,
            name: self.name@,
            done: self.done,
            created_at: self.created_at,
            updated_at: self.updated_at,
        }
    }
}

impl TodoItem {
    /// An independent copy, equal to the original.
    pub fn duplicate(&self) -> (r: TodoItem)
        ensures
            r == *self,
    {
        TodoItem {
            id: self.id,
            name: self.name.clone(),
            done: self.done,
            created_at: self.created_at,
            updated_at: self.updated_at,
        }
    }
}

/// The models of a sequence of items.
pub open spec fn items_model(s: Seq<TodoItem>) -> Seq<ItemModel> {
    s.map_values(|t: TodoItem| t@)
}

/// Mathematical model of the store: the items in insertion order, and the
/// next id to hand out.
pub ghost struct StoreModel {
    pub items: Seq<ItemModel>,
    pub next_id: u64,
}

/// Well-formedness of a store model:
/// - ids are strictly increasing in insertion order (so unique), and all
///   below `next_id` (so a deleted id is never handed out again);
/// - `created_at` is non-decreasing in insertion order;
/// - `updated_at`, when present, is at or after `created_at`.
pub open spec fn store_wf(v: StoreModel) -> bool {
    &&& ids_increasing(v.items)
    &&& forall|i: int| 0 <= i < v.items.len() ==> #[trigger] v.items[i].id < v.next_id
    &&& forall|i: int, j: int|
        0 <= i < j < v.items.len() ==> v.items[i].created_at <= v.items[j].created_at
    &&& forall|i: int|
        0 <= i < v.items.len() ==> match #[trigger] v.items[i].updated_at {
            Some(u) => u >= v.items[i].created_at,
            None => true,
        }
}

/// Ids strictly increasing in insertion order; in particular, unique.
pub open spec fn ids_increasing(s: Seq<ItemModel>) -> bool {
    forall|i: int, j: int| 0 <= i < j < s.len() ==> s[i].id < s[j].id
}

/// Whether some item of `s` has id `id`.
pub open spec fn has_id(s: Seq<ItemModel>, id: u64) -> bool {
    exists|i: int| 0 <= i < s.len() && (#[trigger] s[i].id) == id
}

/// The index of the item with id `id` (unique when the ids of `s` are).
pub open spec fn index_of_id(s: Seq<ItemModel>, id: u64) -> int {
    choose|i: int| 0 <= i < s.len() && (#[trigger] s[i].id) == id
}

/// With strictly increasing ids, the index of an id is the one position
/// that holds it.
pub proof fn lemma_index_of_id(s: Seq<ItemModel>, id: u64, i: int)
    requires
        ids_increasing(s),
        0 <= i < s.len(),
        s[i].id == id,
    ensures
        has_id(s, id),
        index_of_id(s, id) == i,
{
    assert(has_id(s, id));
    let j = index_of_id(s, id);
    if j < i {
        assert(s[j].id < s[i].id);
    } else if j > i {
        assert(s[i].id < s[j].id);
    }
}

/// The creation timestamp a new item receives: the wall-clock reading `now`,
/// clamped so that `created_at` stays non-decreasing across creations even
/// if the clock steps backwards.
pub open spec fn clamped_creation_time(v: StoreModel, now: i64) -> i64 {
    if v.items.len() == 0 || now >= v.items.last().created_at {
        now
    } else {
        v.items.last().created_at
    }
}

/// The model of the item `create` inserts.
pub open spec fn created_item(v: StoreModel, name: Seq<char>, now: i64) -> ItemModel {
    ItemModel {
        id: v.next_id,
        name: name,
        done: false,
        created_at: clamped_creation_time(v, now),
        updated_at: None,
    }
}

/// The store model after a `create`.
pub open spec fn create_step(v: StoreModel, name: Seq<char>, now: i64) -> StoreModel {
    StoreModel { items: v.items.push(created_item(v, name, now)), next_id: (v.next_id + 1) as u64 }
}

/// The model of an item after a partial update: provided fields replace the
/// old ones, absent fields are left unchanged, and `updated_at` is set to
/// `now`, clamped to stay at or after `created_at`.
pub open spec fn updated_item(
    it: ItemModel,
    name: Option<Seq<char>>,
    done: Option<bool>,
    now: i64,
) -> ItemModel {
    ItemModel {
        id: it.id,
        name: match name {
            Some(n) => n,
            None => it.name,
        },
        done: match done {
            Some(d) => d,
            None => it.done,
        },
        created_at: it.created_at,
        updated_at: Some(if now >= it.created_at { now } else { it.created_at }),
    }
}

/// The store model after an `update` addressed to `id`: unchanged when no
/// item has that id.
pub open spec fn update_step(
    v: StoreModel,
    id: u64,
    name: Option<Seq<char>>,
    done: Option<bool>,
    now: i64,
) -> StoreModel {
    if has_id(v.items, id) {
        let i = index_of_id(v.items, id);
        StoreModel {
            items: v.items.update(i, updated_item(v.items[i], name, done, now)),
            next_id: v.next_id,
        }
    } else {
        v
    }
}

/// The store model after a `delete` addressed to `id`: unchanged when no
/// item has that id.
pub open spec fn delete_step(v: StoreModel, id: u64) -> StoreModel {
    if has_id(v.items, id) {
        let i = index_of_id(v.items, id);
        StoreModel { items: v.items.remove(i), next_id: v.next_id }
    } else {
        v
    }
}

/// Addressing an absent id.
#[derive(Debug, Clone, Copy, PartialEq, Eq, Structural)]
pub struct NotFound;

/// The authoritative collection of todo items. Items are kept in insertion
/// order; ids are allocated from a counter and never reused within the
/// store's lifetime, even after deletion.
pub struct EntityStore {
    items: Vec<TodoItem>,
    next_id: u64,
}

impl View for EntityStore {
    type V = StoreModel;

    closed spec fn view(&self) -> StoreModel {
        StoreModel { items: items_model(self.items@), next_id: self.next_id }
    }
}

impl EntityStore {
    /// The store's invariant.
    pub open spec fn wf(&self) -> bool {
        store_wf(self@)
    }

    /// Whether a fresh id can still be allocated.
    pub open spec fn can_allocate(&self) -> bool {
        self@.next_id < u64::MAX
    }

    /// Whether a fresh id can still be allocated: the 64-bit id counter is
    /// not exhausted. `create` requires this.
    pub fn id_space_left(&self) -> (r: bool)
        ensures
            r == self.can_allocate(),
    {
        self.next_id < u64::MAX
    }

    /// An empty store.
    pub fn new() -> (s: EntityStore)
        ensures
            s.wf(),
            s@.items =~= Seq::<ItemModel>::empty(),
            s@.next_id == 0,
    {
        EntityStore { items: Vec::new(), next_id: 0 }
    }

    /// All current items, in stable insertion order, as independent copies.
    pub fn list(&self) -> (r: Vec<TodoItem>)
        ensures
            items_model(r@) =~= self@.items,
    {
        let mut out: Vec<TodoItem> = Vec::new();
        let mut i: usize = 0;
        while i < self.items.len()
            invariant
                i <= self.items.len(),
                out@.len() == i as int,
                forall|k: int| 0 <= k < i ==> (#[trigger] out@[k])@ == self.items@[k]@,
            decreases self.items.len() - i,
        {
            out.push(self.items[i].duplicate());
            i += 1;
        }
        proof {
            assert(items_model(out@) =~= items_model(self.items@));
        }
        out
    }

    /// The index of the item with id `id`, if any.
    fn find_index(&self, id: u64) -> (r: Option<usize>)
        requires
            self.wf(),
        ensures
            match r {
                Some(i) => {
                    &&& i < self@.items.len()
                    &&& self@.items[i as int].id == id
                    &&& has_id(self@.items, id)
                    &&& index_of_id(self@.items, id) == i as int
                },
                None => !has_id(self@.items, id),
            },
    {
        let mut i: usize = 0;
        while i < self.items.len()
            invariant
                self.wf(),
                i <= self.items.len(),
                forall|k: int| 0 <= k < i ==> (#[trigger] self@.items[k].id) != id,
            decreases self.items.len() - i,
        {
            if self.items[i].id == id {
                proof {
                    lemma_index_of_id(self@.items, id, i as int);
                }
                return Some(i);
            }
            i += 1;
        }
        None
    }

    /// Insert a new item with a fresh id, `done = false`, `created_at` set
    /// from the clock reading `now` (clamped to keep creation times
    /// non-decreasing), and no `updated_at`. Always succeeds; any name is
    /// accepted, including the empty one.
    pub fn create(&mut self, name: String, now: i64) -> (item: TodoItem)
        requires
            old(self).wf(),
            old(self).can_allocate(),
        ensures
            final(self).wf(),
            final(self)@ == create_step(old(self)@, name@, now),
            item@ == created_item(old(self)@, name@, now),
            item.id == old(self)@.next_id,
            !has_id(old(self)@.items, item.id),
    {
        let created_at: i64 = if self.items.len() == 0 {
            now
        } else {
            let last = self.items[self.items.len() - 1].created_at;
            if now >= last {
                now
            } else {
                last
            }
        };
        let item = TodoItem {
            id: self.next_id,
            name: name,
            done: false,
            created_at: created_at,
            updated_at: None,
        };
        let copy = item.duplicate();
        self.items.push(item);
        self.next_id = self.next_id + 1;
        proof {
            assert(self@.items =~= old(self)@.items.push(copy@));
            assert(self@ == create_step(old(self)@, copy@.name, now));
        }
        copy
    }

    /// Apply a partial update to the item with id `id`: provided fields
    /// replace the old values, absent fields are left unchanged, and
    /// `updated_at` is set whenever the command addressed an existing id,
    /// even if no field changed value. Returns a copy of the updated item,
    /// or `NotFound` (leaving the store unchanged) exactly when no item has
    /// that id.
    pub fn update(&mut self, id: u64, name: Option<String>, done: Option<bool>, now: i64) -> (r:
        Result<TodoItem, NotFound>)
        requires
            old(self).wf(),
        ensures
            final(self).wf(),
            final(self)@ == update_step(
                old(self)@,
                id,
                match name {
                    Some(n) => Some(n@),
                    None => None,
                },
                done,
                now,
            ),
            has_id(old(self)@.items, id) <==> r is Ok,
            r matches Ok(item) ==> {
                let i = index_of_id(old(self)@.items, id);
                &&& item@ == updated_item(
                    old(self)@.items[i],
                    match name {
                        Some(n) => Some(n@),
                        None => None,
                    },
                    done,
                    now,
                )
                &&& item.id == id
                &&& item@.updated_at matches Some(u) && u >= item@.created_at
            },
            r is Err ==> final(self)@ == old(self)@,
    {
        let ghost name_model: Option<Seq<char>> = match &name {
            Some(n) => Some(n@),
            None => None,
        };
        match self.find_index(id) {
            None => Err(NotFound),
            Some(i) => {
                let it = &self.items[i];
                let new_name: String = match name {
                    Some(n) => n,
                    None => it.name.clone(),
                };
                let new_done: bool = match done {
                    Some(d) => d,
                    None => it.done,
                };
                let updated_at: i64 = if now >= it.created_at {
                    now
                } else {
                    it.created_at
                };
                let updated = TodoItem {
                    id: it.id,
                    name: new_name,
                    done: new_done,
                    created_at: it.created_at,
                    updated_at: Some(updated_at),
                };
                let copy = updated.duplicate();
                self.items[i] = updated;
                proof {
                    assert(self@.items =~= old(self)@.items.update(
                        i as int,
                        updated_item(old(self)@.items[i as int], name_model, done, now),
                    ));
                }
                Ok(copy)
            },
        }
    }

    /// Remove the item with id `id`; the rest keep their order. Returns
    /// `NotFound` (leaving the store unchanged) exactly when no item has
    /// that id. The id of a removed item is never reused: `next_id` is
    /// untouched.
    pub fn delete(&mut self, id: u64) -> (r: Result<(), NotFound>)
        requires
            old(self).wf(),
        ensures
            final(self).wf(),
            final(self)@ == delete_step(old(self)@, id),
            has_id(old(self)@.items, id) <==> r is Ok,
            r is Ok ==> final(self)@.items.len() == old(self)@.items.len() - 1 && !has_id(
                final(self)@.items,
                id,
            ),
            r is Err ==> final(self)@ == old(self)@,
            final(self)@.next_id == old(self)@.next_id,
    {
        match self.find_index(id) {
            None => Err(NotFound),
            Some(i) => {
                self.items.remove(i);
                proof {
                    assert(self@.items =~= old(self)@.items.remove(i as int));
                    assert(forall|k: int|
                        0 <= k < old(self)@.items.len() && k != i ==> old(self)@.items[k].id
                            != id);
                    assert(!has_id(self@.items, id)) by {
                        assert(forall|k: int|
                            0 <= k < self@.items.len() ==> (#[trigger] self@.items[k]).id != id);
                    }
                }
                Ok(())
            },
        }
    }
}

} // verus!
