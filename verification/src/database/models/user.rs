//! Users of the web interface.

use vstd::prelude::*;

use crate::clock::now_millis;
use crate::entity_id::{is_v7_uuid, EntityId, ForUser};

verus! {

/// A user of the web interface.
#[derive(Debug, Clone, PartialEq, Eq, PartialOrd, Ord)]
pub struct User {
    pub id: EntityId<ForUser>,
    pub name: String,
    pub password_hash: String,
    /// Time in ms.
    pub created_at: i64,
}

impl User {
    /// A new user with a fresh identifier, created at time `now`.
    pub fn new_at(name: &str, password_hash: &str, now: i64) -> (u: Self)
        ensures
            u.name@ == name@,
            u.password_hash@ == password_hash@,
            u.created_at == now,
            is_v7_uuid(u.id@),
    {
        User {
            id: EntityId::new(),
            name: name.to_owned(),
            password_hash: password_hash.to_owned(),
            created_at: now,
        }
    }

    /// A new user with a fresh identifier, created now (see [`User::new_at`]).
    pub fn new(name: &str, password_hash: &str) -> (u: Self)
        ensures
            u.name@ == name@,
            u.password_hash@ == password_hash@,
            u.created_at >= 0,
            is_v7_uuid(u.id@),
    {
        Self::new_at(name, password_hash, now_millis())
    }
}

} // verus!
