//! The ingress protocol: the commands a collaborator may send into the
//! pipeline. The type is a closed tagged variant, so a malformed command is
//! not representable.

use vstd::prelude::*;

pub mod ecs;
pub mod ui;

verus! {

/// A request to read or mutate the store, delivered through the ingress
/// channel. `Update` and `Delete` address an item by its id.
#[derive(Debug, Clone)]
pub enum CoreCommand {
    List,
    Create(CreateParams),
    Update(UpdateParams),
    Delete(u64),
}

/// Parameters of a `Create` command: any name is accepted, including the
/// empty one.
#[derive(Debug, Clone)]
pub struct CreateParams {
    pub name: String,
}

impl CreateParams {
    pub fn new(name: String) -> (p: CreateParams)
        ensures
            p.name == name,
    {
        CreateParams { name }
    }
}

/// Parameters of an `Update` command: `entity` addresses the item; a field
/// left as `None` means "leave unchanged".
#[derive(Debug, Clone)]
pub struct UpdateParams {
    pub entity: u64,
    pub name: Option<String>,
    pub done: Option<bool>,
}

} // verus!
