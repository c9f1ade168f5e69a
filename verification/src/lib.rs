//! Verified core of a credential-based group registration and sync service.
//!
//! The library has three parts: a decoder that turns credential-shaped JSON
//! documents into canonical profile and cart claims while tolerating unknown
//! extension fields, a transactional group registry backed by SQLite that
//! assigns or reuses group identifiers, and a sync matcher that gates a spend
//! amount and an advertisement category behind a shared secret.

pub mod decode;
pub mod json;
pub mod matcher;
pub mod model;
pub mod registry;

use vstd::prelude::*;

verus! {

/// The sentinel group id that means "no id assigned yet"; it is never stored.
pub const UNASSIGNED_GROUP_ID: i64 = 0;

} // verus!
