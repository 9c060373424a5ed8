//! Memory model for agent short-term and long-term memory.
use crate::models::entity::{Entity, EntityBase};
use crate::models::goal::optional_instant;
use crate::models::status::{MemoryImportance, MemoryType};
use crate::time::{utc_now, Timestamp};
use vstd::prelude::*;

verus! {

/// Memory entry for agent context.
///
/// The embedding, a vector of `f32`, is kept as the bits of its numbers.
#[derive(Debug)]
pub struct Memory {
    pub base: EntityBase,
    pub user_id: u128,
    pub memory_type: MemoryType,
    pub importance: MemoryImportance,
    pub content: String,
    pub embedding: Option<Vec<u32>>,
    pub source_session_id: Option<u128>,
    pub source_tool_execution_id: Option<u128>,
    pub tags: Vec<String>,
    pub expires_at: Option<Timestamp>,
}

impl Memory {
    /// The memory's instants are ones chrono can represent.
    pub open spec fn wf(self) -> bool {
        self.base.wf() && optional_instant(self.expires_at)
    }

    /// A fresh memory of the given type, of medium importance, with no
    /// embedding, sources, tags or expiry.
    pub open spec fn is_fresh(m: Memory, user_id: u128, content: String, t: MemoryType) -> bool {
        &&& m.wf()
        &&& m.base.created_at == m.base.updated_at
        &&& m.user_id == user_id
        &&& m.memory_type == t
        &&& m.importance == MemoryImportance::Medium
        &&& m.content == content
        &&& m.embedding is None
        &&& m.source_session_id is None
        &&& m.source_tool_execution_id is None
        &&& m.tags@.len() == 0
        &&& m.expires_at is None
    }

    /// A new short-term memory of the user.
    pub fn new_short_term(user_id: u128, content: String) -> (m: Memory)
        ensures
            Memory::is_fresh(m, user_id, content, MemoryType::ShortTerm),
    {
        Memory {
            base: EntityBase::new(),
            user_id,
            memory_type: MemoryType::ShortTerm,
            importance: MemoryImportance::Medium,
            content,
            embedding: None,
            source_session_id: None,
            source_tool_execution_id: None,
            tags: Vec::new(),
            expires_at: None,
        }
    }

    /// A new long-term memory of the user.
    pub fn new_long_term(user_id: u128, content: String) -> (m: Memory)
        ensures
            Memory::is_fresh(m, user_id, content, MemoryType::LongTerm),
    {
        Memory {
            base: EntityBase::new(),
            user_id,
            memory_type: MemoryType::LongTerm,
            importance: MemoryImportance::Medium,
            content,
            embedding: None,
            source_session_id: None,
            source_tool_execution_id: None,
            tags: Vec::new(),
            expires_at: None,
        }
    }

    /// The memory with the given importance.
    pub fn with_importance(self, importance: MemoryImportance) -> (m: Memory)
        ensures
            m == (Memory { importance, ..self }),
    {
        let mut m = self;
        m.importance = importance;
        m
    }

    /// The memory with the given tags.
    pub fn with_tags(self, tags: Vec<String>) -> (m: Memory)
        ensures
            m == (Memory { tags, ..self }),
    {
        let mut m = self;
        m.tags = tags;
        m
    }

    /// The memory expiring at the given instant.
    pub fn with_expiry(self, expires_at: Timestamp) -> (m: Memory)
        ensures
            m == (Memory { expires_at: Some(expires_at), ..self }),
    {
        let mut m = self;
        m.expires_at = Some(expires_at);
        m
    }

    /// Makes the memory long-term.
    pub fn promote_to_long_term(&mut self)
        ensures
            *final(self) == (Memory {
                memory_type: MemoryType::LongTerm,
                base: EntityBase { updated_at: final(self).base.updated_at, ..old(self).base },
                ..*old(self)
            }),
            final(self).base.updated_at.is_instant(),
    {
        self.memory_type = MemoryType::LongTerm;
        self.base.updated_at = utc_now();
    }
}

impl Entity for Memory {
    fn id(&self) -> (r: u128)
        ensures
            r == self.base.id,
    {
        self.base.id
    }

    fn entity_type() -> (r: &'static str)
        ensures
            r@ == "memory"@,
    {
        "memory"
    }

    fn created_at(&self) -> (r: Timestamp)
        ensures
            r == self.base.created_at,
    {
        self.base.created_at
    }

    fn updated_at(&self) -> (r: Timestamp)
        ensures
            r == self.base.updated_at,
    {
        self.base.updated_at
    }
}

/// Query for searching memories.
#[derive(Debug)]
pub struct MemoryQuery {
    pub user_id: Option<u128>,
    pub memory_type: Option<MemoryType>,
    pub tags: Option<Vec<String>>,
    pub limit: Option<usize>,
    pub offset: Option<usize>,
}

impl Default for MemoryQuery {
    fn default() -> (q: MemoryQuery)
        ensures
            q.user_id is None,
            q.memory_type is None,
            q.tags is None,
            q.limit is None,
            q.offset is None,
    {
        MemoryQuery { user_id: None, memory_type: None, tags: None, limit: None, offset: None }
    }
}

} // verus!
