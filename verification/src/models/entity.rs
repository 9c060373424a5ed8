//! Fields common to all entities.
use crate::ids::{is_random_uuid, new_id};
use crate::time::{utc_now, Timestamp};
use vstd::prelude::*;

verus! {

/// Schema version for migrations.
pub const CURRENT_SCHEMA_VERSION: u32 = 1;

/// Base fields common to all entities.
#[derive(Clone, Copy, Debug)]
pub struct EntityBase {
    pub id: u128,
    pub created_at: Timestamp,
    pub updated_at: Timestamp,
}

impl EntityBase {
    /// Both instants are ones chrono can represent.
    pub open spec fn wf(self) -> bool {
        self.created_at.is_instant() && self.updated_at.is_instant()
    }

    /// A fresh base: a new random identifier, created and updated now.
    pub fn new() -> (b: EntityBase)
        ensures
            b.wf(),
            is_random_uuid(b.id),
            b.created_at == b.updated_at,
    {
        let now = utc_now();
        EntityBase { id: new_id(), created_at: now, updated_at: now }
    }

    /// A base with the given identifier, created and updated now.
    pub fn with_id(id: u128) -> (b: EntityBase)
        ensures
            b.wf(),
            b.id == id,
            b.created_at == b.updated_at,
    {
        let now = utc_now();
        EntityBase { id, created_at: now, updated_at: now }
    }
}

impl Default for EntityBase {
    fn default() -> (b: EntityBase)
        ensures
            b.wf(),
            is_random_uuid(b.id),
            b.created_at == b.updated_at,
    {
        EntityBase::new()
    }
}

/// The accessors that every stored entity offers.
pub trait Entity {
    /// The entity's identifier.
    fn id(&self) -> u128;

    /// The name of the entity's kind.
    fn entity_type() -> &'static str;

    /// When the entity was created.
    fn created_at(&self) -> Timestamp;

    /// When the entity was last changed.
    fn updated_at(&self) -> Timestamp;
}

/// State version for tracking schema migrations.
#[derive(Clone, Copy, Debug)]
pub struct StateVersion {
    pub version: u32,
    pub applied_at: Timestamp,
}

impl StateVersion {
    /// The given version, applied now.
    pub fn new(version: u32) -> (v: StateVersion)
        ensures
            v.version == version,
            v.applied_at.is_instant(),
    {
        StateVersion { version, applied_at: utc_now() }
    }
}

} // verus!
