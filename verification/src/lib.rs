//! Core of a minimal multi-client line-based chat service: the session
//! registry, the command parser, the event queue and the permission-gated
//! dispatcher, with the behaviour of each stated in its contract.
//!
//! The [`server::Server`] type assembles the pieces behind one exclusion
//! boundary; the socket wiring around it lives outside this library and
//! only moves lines in and deliveries out.

pub mod broadcast;
pub mod dispatcher;
pub mod laws;
pub mod parser;
pub mod registry;
pub mod server;

use vstd::prelude::*;

verus! {

/// Permission level of a connected session. Levels are only ever raised
/// (`NoPerm` to `Mod`); `Owner` is assigned once, to the first session that
/// registers, and is never revoked or transferred.
#[derive(Clone, Copy, Debug, PartialEq, Eq, Structural)]
pub enum UserPermissionLevel {
    NoPerm,
    Mod,
    Owner,
}

/// Server-side state of one connected client: an optional display name
/// (unset until the client issues `/username`) and a permission level.
pub struct User {
    pub username: Option<String>,
    pub permission_level: UserPermissionLevel,
}

} // verus!
