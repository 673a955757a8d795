//! The egress protocol: full-state snapshots published to subscribers. A
//! snapshot is tagged with the operation that produced it, purely for
//! observability; the payload is always the full current list, never a diff.

use crate::store::{ItemModel, TodoItem};
use vstd::prelude::*;

verus! {

/// Mathematical model of a snapshot: the tag and the item models.
pub ghost enum UICommandModel {
    List(Seq<ItemModel>),
    Create(Seq<ItemModel>),
    Update(Seq<ItemModel>),
    Delete(Seq<ItemModel>),
}

impl UICommandModel {
    /// The items the snapshot carries, whatever its tag.
    pub open spec fn items(self) -> Seq<ItemModel> {
        match self {
            UICommandModel::List(l) => l,
            UICommandModel::Create(l) => l,
            UICommandModel::Update(l) => l,
            UICommandModel::Delete(l) => l,
        }
    }
}

/// A copy of one item as delivered to subscribers; `entity` is the item's
/// stable id.
#[derive(Debug, Clone)]
pub struct UITodoItem {
    pub entity: u64,
    pub name: String,
    pub done: bool,
    pub created_at: i64,
    pub updated_at: Option<i64>,
}

impl View for UITodoItem {
    type V = ItemModel;

    open spec fn view(&self) -> ItemModel {
        ItemModel {
            id: self.entity,
            name: self.name@,
            done: self.done,
            created_at: self.created_at,
            updated_at: self.updated_at,
        }
    }
}

impl UITodoItem {
    /// The delivered copy of a store item.
    pub fn of_item(t: &TodoItem) -> (r: UITodoItem)
        ensures
            r@ == t@,
    {
        UITodoItem {
            entity: t.id,
            name: t.name.clone(),
            done: t.done,
            created_at: t.created_at,
            updated_at: t.updated_at,
        }
    }

    /// An independent copy, equal to the original.
    pub fn duplicate(&self) -> (r: UITodoItem)
        ensures
            r == *self,
    {
        UITodoItem {
            entity: self.entity,
            name: self.name.clone(),
            done: self.done,
            created_at: self.created_at,
            updated_at: self.updated_at,
        }
    }
}

/// The ordered items of a snapshot.
pub type UITodoList = Vec<UITodoItem>;

/// The models of a delivered list.
pub open spec fn ui_items_model(s: Seq<UITodoItem>) -> Seq<ItemModel> {
    s.map_values(|t: UITodoItem| t@)
}

/// A full-state snapshot, tagged with the operation that produced it.
#[derive(Debug, Clone)]
pub enum UICommand {
    List(UITodoList),
    Create(UITodoList),
    Update(UITodoList),
    Delete(UITodoList),
}

impl View for UICommand {
    type V = UICommandModel;

    open spec fn view(&self) -> UICommandModel {
        match self {
            UICommand::List(l) => UICommandModel::List(ui_items_model(l@)),
            UICommand::Create(l) => UICommandModel::Create(ui_items_model(l@)),
            UICommand::Update(l) => UICommandModel::Update(ui_items_model(l@)),
            UICommand::Delete(l) => UICommandModel::Delete(ui_items_model(l@)),
        }
    }
}

/// An independent copy of a delivered list, item for item.
pub fn duplicate_list(l: &UITodoList) -> (r: UITodoList)
    ensures
        r@ =~= l@,
        ui_items_model(r@) == ui_items_model(l@),
{
    let mut out: UITodoList = Vec::new();
    let mut i: usize = 0;
    while i < l.len()
        invariant
            i <= l.len(),
            out@.len() == i as int,
            forall|k: int| 0 <= k < i ==> (#[trigger] out@[k]) == l@[k],
        decreases l.len() - i,
    {
        out.push(l[i].duplicate());
        i += 1;
    }
    proof {
        assert(out@ =~= l@);
    }
    out
}

impl UICommand {
    /// An independent copy, with the same tag and the same items.
    pub fn duplicate(&self) -> (r: UICommand)
        ensures
            r@ == self@,
    {
        match self {
            UICommand::List(l) => UICommand::List(duplicate_list(l)),
            UICommand::Create(l) => UICommand::Create(duplicate_list(l)),
            UICommand::Update(l) => UICommand::Update(duplicate_list(l)),
            UICommand::Delete(l) => UICommand::Delete(duplicate_list(l)),
        }
    }

    /// The items of the snapshot, handed out by value.
    pub fn items(self) -> (r: UITodoList)
        ensures
            ui_items_model(r@) == self@.items(),
    {
        match self {
            UICommand::List(l) => l,
            UICommand::Create(l) => l,
            UICommand::Update(l) => l,
            UICommand::Delete(l) => l,
        }
    }
}

} // verus!
