//! The reduced ingress protocol spoken by collaborators that cannot delete:
//! the same commands as the full one, minus `Delete`.

use crate::command::CoreCommand;
use vstd::prelude::*;

verus! {

/// A read or mutation request without a delete form.
#[derive(Debug, Clone)]
pub enum ECSCommand {
    List,
    Create(CreateParams),
    Update(UpdateParams),
}

/// Parameters of a `Create` command.
#[derive(Debug, Clone)]
pub struct CreateParams {
    pub name: String,
}

impl CreateParams {
    pub fn new(name: String) -> (p: CreateParams)
        ensures
            p.name == name,
    {
        CreateParams { name }
    }
}

/// Parameters of an `Update` command; `None` means "leave unchanged".
#[derive(Debug, Clone)]
pub struct UpdateParams {
    pub entity: u64,
    pub name: Option<String>,
    pub done: Option<bool>,
}

impl ECSCommand {
    /// The same request in the full ingress protocol.
    pub fn into_core(self) -> (c: CoreCommand)
        ensures
            match self {
                ECSCommand::List => c is List,
                ECSCommand::Create(p) => c matches CoreCommand::Create(q) && q.name == p.name,
                ECSCommand::Update(p) => c matches CoreCommand::Update(q) && q.entity == p.entity
                    && q.name == p.name && q.done == p.done,
            },
    {
        match self {
            ECSCommand::List => CoreCommand::List,
            ECSCommand::Create(p) => CoreCommand::Create(
                crate::command::CreateParams { name: p.name },
            ),
            ECSCommand::Update(p) => CoreCommand::Update(
                crate::command::UpdateParams { entity: p.entity, name: p.name, done: p.done },
            ),
        }
    }
}

} // verus!
