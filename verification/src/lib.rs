//! An in-process reactive state container for a small mutable collection of
//! todo items: commands (list, create, update, delete) are applied serially
//! against an authoritative in-memory store, and each accepted command yields
//! a full-state snapshot that is fanned out to every current subscriber.

pub mod clock;
pub mod command;
pub mod dispatch;
pub mod notify;
pub mod pipeline;
pub mod store;
