//! What the state service computes for its requests, before and after the
//! database does its part: the entities that the create requests store, the
//! idempotency key an execution request runs under, and the defaults of
//! the list requests.
use crate::json::{is_empty_object, JsonValue};
use crate::models::goal::Goal;
use crate::models::memory::Memory;
use crate::models::session::Session;
use crate::models::status::{GoalPriority, GoalStatus, MemoryImportance, MemoryType, SessionStatus, ToolStatus};
use crate::models::tool_execution::{auto_key_form, identity_digest, ToolExecution};
use crate::models::user::User;
use crate::time::{day_form, Timestamp};
use vstd::prelude::*;

verus! {

/// How many memories a listing returns when the request names no limit.
pub const DEFAULT_MEMORY_LIST_LIMIT: usize = 50;

/// The text given, or the empty text.
fn text_or_empty(t: Option<String>) -> (s: String)
    ensures
        t matches Some(x) ==> s == x,
        t is None ==> s@.len() == 0,
{
    match t {
        Some(x) => x,
        None => String::new(),
    }
}

/// The text an optional request field gives: the text, or the empty text.
pub open spec fn given_or_empty(t: Option<String>, s: String) -> bool {
    &&& t matches Some(x) ==> s == x
    &&& t is None ==> s@.len() == 0
}

/// The user that a `create_user` request stores: a new active user whose
/// display name and email are the ones given, or empty texts.
pub fn new_user(username: String, display_name: Option<String>, email: Option<String>) -> (u: User)
    ensures
        u.wf(),
        u.base.created_at == u.base.updated_at,
        u.username == username,
        u.display_name matches Some(d) && given_or_empty(display_name, d),
        u.email matches Some(e) && given_or_empty(email, e),
        is_empty_object(u.metadata),
        u.active,
{
    User::new(username).with_display_name(text_or_empty(display_name)).with_email(
        text_or_empty(email),
    )
}

/// The session that a `create_session` request stores: a new active
/// session of the user, on the channel given, if any.
pub fn new_session(user_id: u128, channel_id: Option<u128>) -> (s: Session)
    ensures
        s.wf(),
        s.base.created_at == s.base.updated_at,
        s.user_id == user_id,
        s.channel_id == channel_id,
        s.status == SessionStatus::Active,
        is_empty_object(s.metadata),
        is_empty_object(s.context),
{
    let mut session = Session::new(user_id);
    if let Some(cid) = channel_id {
        session = session.with_channel(cid);
    }
    session
}

/// The goal that a `create_goal` request stores: a new pending goal whose
/// description is the one given, or the empty text.
pub fn new_goal(user_id: u128, session_id: u128, title: String, description: Option<String>) -> (g:
    Goal)
    ensures
        g.wf(),
        g.base.created_at == g.base.updated_at,
        g.user_id == user_id,
        g.session_id == session_id,
        g.parent_goal_id is None,
        g.title == title,
        g.description matches Some(d) && given_or_empty(description, d),
        g.status == GoalStatus::Pending,
        g.priority == GoalPriority::Medium,
        is_empty_object(g.context),
        g.result is None,
        g.started_at is None,
        g.completed_at is None,
{
    Goal::new(user_id, session_id, title).with_description(text_or_empty(description))
}

/// The memory that a `create_memory` request stores: a new short-term
/// memory, of the importance given (else medium), with the tags given
/// (else none).
pub fn new_memory(
    user_id: u128,
    content: String,
    importance: Option<MemoryImportance>,
    tags: Option<Vec<String>>,
) -> (m: Memory)
    ensures
        m.wf(),
        m.base.created_at == m.base.updated_at,
        m.user_id == user_id,
        m.memory_type == MemoryType::ShortTerm,
        m.importance == (match importance {
            Some(i) => i,
            None => MemoryImportance::Medium,
        }),
        m.content == content,
        m.embedding is None,
        m.source_session_id is None,
        m.source_tool_execution_id is None,
        tags matches Some(t) ==> m.tags == t,
        tags is None ==> m.tags@.len() == 0,
        m.expires_at is None,
{
    let mut memory = Memory::new_short_term(user_id, content);
    if let Some(imp) = importance {
        memory = memory.with_importance(imp);
    }
    if let Some(t) = tags {
        memory = memory.with_tags(t);
    }
    memory
}

/// The execution that an `execute_tool_idempotent` request creates unless
/// one is already recorded under its key: a new pending execution of the
/// tool, under the key.
pub fn new_idempotent_execution(
    user_id: u128,
    session_id: u128,
    goal_id: u128,
    tool_name: String,
    tool_input: JsonValue,
    idempotency_key: String,
) -> (e: ToolExecution)
    ensures
        e.wf(),
        e.base.created_at == e.base.updated_at,
        e.goal_id == goal_id,
        e.session_id == session_id,
        e.user_id == user_id,
        e.tool_name == tool_name,
        e.tool_input == tool_input,
        e.status == ToolStatus::Pending,
        e.output is None,
        e.error is None,
        e.idempotency_key == Some(idempotency_key),
        e.started_at is None,
        e.completed_at is None,
{
    ToolExecution::new(user_id, session_id, goal_id, tool_name, tool_input).with_idempotency_key(
        idempotency_key,
    )
}

/// The key an `execute_tool_idempotent` request runs under: the key given,
/// or else the automatic key of the execution's identity for today.
pub fn request_idempotency_key(
    given: Option<String>,
    user_id: u128,
    session_id: u128,
    goal_id: u128,
    tool_name: &str,
    tool_input: &JsonValue,
) -> (key: String)
    ensures
        given matches Some(k) ==> key == k,
        given is None ==> exists|t: Timestamp|
            t.is_instant() && key@ == auto_key_form(
                tool_name@,
                #[trigger] day_form(t.secs, t.nanos),
                identity_digest(user_id, session_id, goal_id, tool_name@, *tool_input),
            ),
{
    match given {
        Some(k) => k,
        None => ToolExecution::generate_idempotency_key(
            user_id,
            session_id,
            goal_id,
            tool_name,
            tool_input,
        ),
    }
}

/// How many memories a `list_memories` request returns: the limit given,
/// or 50.
pub fn memory_list_limit(limit: Option<usize>) -> (n: usize)
    ensures
        limit matches Some(l) ==> n == l,
        limit is None ==> n == DEFAULT_MEMORY_LIST_LIMIT,
{
    match limit {
        Some(l) => l,
        None => DEFAULT_MEMORY_LIST_LIMIT,
    }
}

} // verus!
