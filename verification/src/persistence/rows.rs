//! The rows that the database stores for each entity, and how an entity is
//! written to a row and read back from one.
//!
//! Identifiers are stored as their hyphenated text, instants as RFC 3339
//! text, statuses as their codes, tag lists as JSON arrays of strings. The
//! JSON columns (metadata, context, inputs, outputs, results, a tool
//! schema's parameters) and the embeddings are carried here as values: the caller turns them into JSON
//! text or bincode bytes when it binds them, and hands them back parsed,
//! with `None` where the stored text or bytes did not parse.
//!
//! Reading follows the stored rows' conventions: an identifier that does
//! not parse makes the row unreadable (`None`); an instant that does not
//! parse reads as the time of reading for a required column and as absent
//! for an optional one; a JSON column that does not parse reads as `{}`;
//! tags that do not parse read as no tags; an unknown code reads as the
//! default of its enumeration. Tool schemas are stricter: a row whose
//! parameters, tags, identifier or instants do not read is refused, with
//! the number of the first such column.
use crate::ids::{id_text, parse_id, uuid_value};
use crate::json::{is_empty_object, JsonValue};
use crate::models::channel::Channel;
use crate::models::entity::EntityBase;
use crate::models::goal::{optional_instant, Goal};
use crate::models::memory::Memory;
use crate::models::session::Session;
use crate::models::status::{
    ChannelStatus, ChannelType, GoalPriority, GoalStatus, MemoryImportance, MemoryType, SessionStatus,
    ToolStatus,
};
use crate::models::tool_execution::ToolExecution;
use crate::models::tool_schema::{ParameterType, ToolParameter, ToolSchema};
use crate::models::user::User;
use crate::time::{parse_rfc3339, rfc3339_form, rfc3339_instant, rfc3339_text, utc_now, Timestamp};
use vstd::prelude::*;

verus! {

/// The text stored for an identifier: its hyphenated form, which reads back
/// as the identifier.
pub open spec fn id_written(text: String, v: u128) -> bool {
    uuid_value(text@) == Some(v)
}

/// The text stored for an optional identifier.
pub open spec fn optional_id_written(text: Option<String>, v: Option<u128>) -> bool {
    match v {
        None => text is None,
        Some(x) => text matches Some(s) && id_written(s, x),
    }
}

/// The identifier read from a stored text.
pub open spec fn id_read(text: String, v: u128) -> bool {
    uuid_value(text@) == Some(v)
}

/// Whether a stored text is an identifier.
pub open spec fn id_parses(text: String) -> bool {
    uuid_value(text@) is Some
}

/// Whether an optional stored text is absent or an identifier.
pub open spec fn optional_id_parses(text: Option<String>) -> bool {
    text matches Some(s) ==> id_parses(s)
}

/// The optional identifier read from an optional stored text.
pub open spec fn optional_id_read(text: Option<String>, v: Option<u128>) -> bool {
    match text {
        None => v is None,
        Some(s) => v matches Some(x) && id_read(s, x),
    }
}

/// The text stored for an instant: its RFC 3339 form, which reads back as
/// the instant when its year has four digits.
pub open spec fn instant_written(text: String, t: Timestamp) -> bool {
    &&& text@ == rfc3339_form(t.secs, t.nanos)
    &&& t.has_four_digit_year() ==> rfc3339_instant(text@) == Some(t.parts())
}

/// The text stored for an optional instant.
pub open spec fn optional_instant_written(text: Option<String>, t: Option<Timestamp>) -> bool {
    match t {
        None => text is None,
        Some(x) => text matches Some(s) && instant_written(s, x),
    }
}

/// The instant read from a stored text: the instant the text gives, or,
/// where it gives none, the time of reading.
pub open spec fn instant_read(text: String, t: Timestamp) -> bool {
    &&& t.is_instant()
    &&& rfc3339_instant(text@) matches Some(p) ==> t.parts() == p
}

/// The optional instant read from an optional stored text: absent where
/// the text is absent or gives no instant.
pub open spec fn optional_instant_read(text: Option<String>, t: Option<Timestamp>) -> bool {
    match text {
        None => t is None,
        Some(s) => match rfc3339_instant(s@) {
            Some(p) => t matches Some(x) && x.parts() == p && x.is_instant(),
            None => t is None,
        },
    }
}

/// A JSON column read back: the value parsed, or `{}`.
pub open spec fn json_read(stored: Option<JsonValue>, v: JsonValue) -> bool {
    match stored {
        Some(x) => v == x,
        None => is_empty_object(v),
    }
}

/// An optional instant has, if present, a year of four digits.
pub open spec fn optional_four_digit(t: Option<Timestamp>) -> bool {
    t matches Some(x) ==> x.has_four_digit_year()
}

fn write_id(v: u128) -> (s: String)
    ensures
        id_written(s, v),
{
    id_text(v)
}

fn write_optional_id(v: Option<u128>) -> (s: Option<String>)
    ensures
        optional_id_written(s, v),
{
    match v {
        Some(x) => Some(id_text(x)),
        None => None,
    }
}

/// The text stored for an instant: its RFC 3339 form.
pub fn write_instant(t: Timestamp) -> (s: String)
    requires
        t.is_instant(),
    ensures
        instant_written(s, t),
{
    rfc3339_text(t)
}

fn write_optional_instant(t: Option<Timestamp>) -> (s: Option<String>)
    requires
        optional_instant(t),
    ensures
        optional_instant_written(s, t),
{
    match t {
        Some(x) => Some(rfc3339_text(x)),
        None => None,
    }
}

/// The instant read from a stored text: the instant it gives, else the
/// time of reading.
pub fn read_instant(text: &String) -> (t: Timestamp)
    ensures
        instant_read(*text, t),
{
    match parse_rfc3339(text.as_str()) {
        Some(t) => t,
        None => utc_now(),
    }
}

/// The optional instant read from an optional stored text: absent where
/// the text is absent or gives no instant.
pub fn read_optional_instant(text: &Option<String>) -> (t: Option<Timestamp>)
    ensures
        optional_instant_read(*text, t),
{
    match text {
        Some(s) => parse_rfc3339(s.as_str()),
        None => None,
    }
}

fn read_optional_id(text: &Option<String>) -> (r: Option<Option<u128>>)
    ensures
        r is Some <==> optional_id_parses(*text),
        r matches Some(v) ==> optional_id_read(*text, v),
{
    match text {
        Some(s) => match parse_id(s.as_str()) {
            Some(v) => Some(Some(v)),
            None => None,
        },
        None => Some(None),
    }
}

fn read_json(stored: Option<JsonValue>) -> (v: JsonValue)
    ensures
        json_read(stored, v),
{
    match stored {
        Some(x) => x,
        None => JsonValue::empty_object(),
    }
}

// ---------------------------------------------------------------- users

/// A row of the `users` table.
#[derive(Debug)]
pub struct UserRow {
    pub id: String,
    pub username: String,
    pub display_name: Option<String>,
    pub email: Option<String>,
    pub metadata: Option<JsonValue>,
    pub active: i32,
    pub created_at: String,
    pub updated_at: String,
}

/// The row written for a user.
pub open spec fn user_written(u: User, row: UserRow) -> bool {
    &&& id_written(row.id, u.base.id)
    &&& row.username == u.username
    &&& row.display_name == u.display_name
    &&& row.email == u.email
    &&& row.metadata == Some(u.metadata)
    &&& row.active == (if u.active { 1i32 } else { 0i32 })
    &&& instant_written(row.created_at, u.base.created_at)
    &&& instant_written(row.updated_at, u.base.updated_at)
}

/// The user read from a row, if the row is readable.
pub open spec fn user_read(row: UserRow, r: Option<User>) -> bool {
    &&& r is Some <==> id_parses(row.id)
    &&& r matches Some(u) ==> {
        &&& id_read(row.id, u.base.id)
        &&& u.username == row.username
        &&& u.display_name == row.display_name
        &&& u.email == row.email
        &&& json_read(row.metadata, u.metadata)
        &&& u.active == (row.active != 0)
        &&& instant_read(row.created_at, u.base.created_at)
        &&& instant_read(row.updated_at, u.base.updated_at)
    }
}

/// The row for a user.
pub fn encode_user(u: User) -> (row: UserRow)
    requires
        u.wf(),
    ensures
        user_written(u, row),
{
    UserRow {
        id: write_id(u.base.id),
        username: u.username,
        display_name: u.display_name,
        email: u.email,
        metadata: Some(u.metadata),
        active: if u.active {
            1
        } else {
            0
        },
        created_at: write_instant(u.base.created_at),
        updated_at: write_instant(u.base.updated_at),
    }
}

/// The user in a row; `None` where the row's identifier is not one.
pub fn decode_user(row: UserRow) -> (r: Option<User>)
    ensures
        user_read(row, r),
{
    let id = match parse_id(row.id.as_str()) {
        Some(v) => v,
        None => {
            return None;
        },
    };
    let created_at = read_instant(&row.created_at);
    let updated_at = read_instant(&row.updated_at);
    Some(
        User {
            base: EntityBase { id, created_at, updated_at },
            username: row.username,
            display_name: row.display_name,
            email: row.email,
            metadata: read_json(row.metadata),
            active: row.active != 0,
        },
    )
}

/// A user written to a row reads back as the same user, provided its
/// instants fall in years of four digits.
pub proof fn user_row_round_trip(u: User, row: UserRow, r: Option<User>)
    requires
        u.base.created_at.has_four_digit_year(),
        u.base.updated_at.has_four_digit_year(),
        user_written(u, row),
        user_read(row, r),
    ensures
        r == Some(u),
{
}

// ------------------------------------------------------------- sessions

/// A row of the `sessions` table.
#[derive(Debug)]
pub struct SessionRow {
    pub id: String,
    pub user_id: String,
    pub channel_id: Option<String>,
    pub status: String,
    pub metadata: Option<JsonValue>,
    pub context: Option<JsonValue>,
    pub last_activity_at: String,
    pub created_at: String,
    pub updated_at: String,
}

/// The row written for a session.
pub open spec fn session_written(s: Session, row: SessionRow) -> bool {
    &&& id_written(row.id, s.base.id)
    &&& id_written(row.user_id, s.user_id)
    &&& optional_id_written(row.channel_id, s.channel_id)
    &&& row.status@ == s.status.code_spec()
    &&& row.metadata == Some(s.metadata)
    &&& row.context == Some(s.context)
    &&& instant_written(row.last_activity_at, s.last_activity_at)
    &&& instant_written(row.created_at, s.base.created_at)
    &&& instant_written(row.updated_at, s.base.updated_at)
}

/// The session read from a row, if the row is readable.
pub open spec fn session_read(row: SessionRow, r: Option<Session>) -> bool {
    &&& r is Some <==> id_parses(row.id) && id_parses(row.user_id) && optional_id_parses(
        row.channel_id,
    )
    &&& r matches Some(s) ==> {
        &&& id_read(row.id, s.base.id)
        &&& id_read(row.user_id, s.user_id)
        &&& optional_id_read(row.channel_id, s.channel_id)
        &&& s.status == SessionStatus::from_code_spec(row.status@)
        &&& json_read(row.metadata, s.metadata)
        &&& json_read(row.context, s.context)
        &&& instant_read(row.last_activity_at, s.last_activity_at)
        &&& instant_read(row.created_at, s.base.created_at)
        &&& instant_read(row.updated_at, s.base.updated_at)
    }
}

/// The row for a session.
pub fn encode_session(s: Session) -> (row: SessionRow)
    requires
        s.wf(),
    ensures
        session_written(s, row),
{
    SessionRow {
        id: write_id(s.base.id),
        user_id: write_id(s.user_id),
        channel_id: write_optional_id(s.channel_id),
        status: String::from_str(s.status.code()),
        metadata: Some(s.metadata),
        context: Some(s.context),
        last_activity_at: write_instant(s.last_activity_at),
        created_at: write_instant(s.base.created_at),
        updated_at: write_instant(s.base.updated_at),
    }
}

/// The session in a row; `None` where an identifier of the row is not one.
pub fn decode_session(row: SessionRow) -> (r: Option<Session>)
    ensures
        session_read(row, r),
{
    let id = match parse_id(row.id.as_str()) {
        Some(v) => v,
        None => {
            return None;
        },
    };
    let user_id = match parse_id(row.user_id.as_str()) {
        Some(v) => v,
        None => {
            return None;
        },
    };
    let channel_id = match read_optional_id(&row.channel_id) {
        Some(v) => v,
        None => {
            return None;
        },
    };
    let created_at = read_instant(&row.created_at);
    let updated_at = read_instant(&row.updated_at);
    let last_activity_at = read_instant(&row.last_activity_at);
    Some(
        Session {
            base: EntityBase { id, created_at, updated_at },
            user_id,
            channel_id,
            status: SessionStatus::from_code(row.status.as_str()),
            metadata: read_json(row.metadata),
            context: read_json(row.context),
            last_activity_at,
        },
    )
}

/// A session written to a row reads back as the same session, provided its
/// instants fall in years of four digits.
pub proof fn session_row_round_trip(s: Session, row: SessionRow, r: Option<Session>)
    requires
        s.base.created_at.has_four_digit_year(),
        s.base.updated_at.has_four_digit_year(),
        s.last_activity_at.has_four_digit_year(),
        session_written(s, row),
        session_read(row, r),
    ensures
        r == Some(s),
{
    crate::models::status::session_status_code_round_trip(s.status);
}

// ---------------------------------------------------------------- goals

/// A row of the `goals` table.
#[derive(Debug)]
pub struct GoalRow {
    pub id: String,
    pub user_id: String,
    pub session_id: String,
    pub parent_goal_id: Option<String>,
    pub title: String,
    pub description: Option<String>,
    pub status: String,
    pub priority: String,
    pub context: Option<JsonValue>,
    pub result: Option<JsonValue>,
    pub started_at: Option<String>,
    pub completed_at: Option<String>,
    pub created_at: String,
    pub updated_at: String,
}

/// The row written for a goal.
pub open spec fn goal_written(g: Goal, row: GoalRow) -> bool {
    &&& id_written(row.id, g.base.id)
    &&& id_written(row.user_id, g.user_id)
    &&& id_written(row.session_id, g.session_id)
    &&& optional_id_written(row.parent_goal_id, g.parent_goal_id)
    &&& row.title == g.title
    &&& row.description == g.description
    &&& row.status@ == g.status.code_spec()
    &&& row.priority@ == g.priority.code_spec()
    &&& row.context == Some(g.context)
    &&& row.result == g.result
    &&& optional_instant_written(row.started_at, g.started_at)
    &&& optional_instant_written(row.completed_at, g.completed_at)
    &&& instant_written(row.created_at, g.base.created_at)
    &&& instant_written(row.updated_at, g.base.updated_at)
}

/// The goal read from a row, if the row is readable.
pub open spec fn goal_read(row: GoalRow, r: Option<Goal>) -> bool {
    &&& r is Some <==> id_parses(row.id) && id_parses(row.user_id) && id_parses(row.session_id)
        && optional_id_parses(row.parent_goal_id)
    &&& r matches Some(g) ==> {
        &&& id_read(row.id, g.base.id)
        &&& id_read(row.user_id, g.user_id)
        &&& id_read(row.session_id, g.session_id)
        &&& optional_id_read(row.parent_goal_id, g.parent_goal_id)
        &&& g.title == row.title
        &&& g.description == row.description
        &&& g.status == GoalStatus::from_code_spec(row.status@)
        &&& g.priority == GoalPriority::from_code_spec(row.priority@)
        &&& json_read(row.context, g.context)
        &&& g.result == row.result
        &&& optional_instant_read(row.started_at, g.started_at)
        &&& optional_instant_read(row.completed_at, g.completed_at)
        &&& instant_read(row.created_at, g.base.created_at)
        &&& instant_read(row.updated_at, g.base.updated_at)
    }
}

/// The row for a goal.
pub fn encode_goal(g: Goal) -> (row: GoalRow)
    requires
        g.wf(),
    ensures
        goal_written(g, row),
{
    GoalRow {
        id: write_id(g.base.id),
        user_id: write_id(g.user_id),
        session_id: write_id(g.session_id),
        parent_goal_id: write_optional_id(g.parent_goal_id),
        title: g.title,
        description: g.description,
        status: String::from_str(g.status.code()),
        priority: String::from_str(g.priority.code()),
        context: Some(g.context),
        result: g.result,
        started_at: write_optional_instant(g.started_at),
        completed_at: write_optional_instant(g.completed_at),
        created_at: write_instant(g.base.created_at),
        updated_at: write_instant(g.base.updated_at),
    }
}

/// The goal in a row; `None` where an identifier of the row is not one.
pub fn decode_goal(row: GoalRow) -> (r: Option<Goal>)
    ensures
        goal_read(row, r),
{
    let id = match parse_id(row.id.as_str()) {
        Some(v) => v,
        None => {
            return None;
        },
    };
    let user_id = match parse_id(row.user_id.as_str()) {
        Some(v) => v,
        None => {
            return None;
        },
    };
    let session_id = match parse_id(row.session_id.as_str()) {
        Some(v) => v,
        None => {
            return None;
        },
    };
    let parent_goal_id = match read_optional_id(&row.parent_goal_id) {
        Some(v) => v,
        None => {
            return None;
        },
    };
    let created_at = read_instant(&row.created_at);
    let updated_at = read_instant(&row.updated_at);
    let started_at = read_optional_instant(&row.started_at);
    let completed_at = read_optional_instant(&row.completed_at);
    Some(
        Goal {
            base: EntityBase { id, created_at, updated_at },
            user_id,
            session_id,
            parent_goal_id,
            title: row.title,
            description: row.description,
            status: GoalStatus::from_code(row.status.as_str()),
            priority: GoalPriority::from_code(row.priority.as_str()),
            context: read_json(row.context),
            result: row.result,
            started_at,
            completed_at,
        },
    )
}

/// A goal written to a row reads back as the same goal, provided its
/// instants fall in years of four digits.
pub proof fn goal_row_round_trip(g: Goal, row: GoalRow, r: Option<Goal>)
    requires
        g.base.created_at.has_four_digit_year(),
        g.base.updated_at.has_four_digit_year(),
        optional_four_digit(g.started_at),
        optional_four_digit(g.completed_at),
        goal_written(g, row),
        goal_read(row, r),
    ensures
        r == Some(g),
{
    crate::models::status::goal_status_code_round_trip(g.status);
    crate::models::status::goal_priority_code_round_trip(g.priority);
}

// ------------------------------------------------------ tool executions

/// A row of the `tool_executions` table.
#[derive(Debug)]
pub struct ToolExecutionRow {
    pub id: String,
    pub goal_id: String,
    pub session_id: String,
    pub user_id: String,
    pub tool_name: String,
    pub tool_input: Option<JsonValue>,
    pub status: String,
    pub output: Option<JsonValue>,
    pub error: Option<String>,
    pub idempotency_key: Option<String>,
    pub started_at: Option<String>,
    pub completed_at: Option<String>,
    pub created_at: String,
    pub updated_at: String,
}

/// The row written for a tool execution.
pub open spec fn execution_written(e: ToolExecution, row: ToolExecutionRow) -> bool {
    &&& id_written(row.id, e.base.id)
    &&& id_written(row.goal_id, e.goal_id)
    &&& id_written(row.session_id, e.session_id)
    &&& id_written(row.user_id, e.user_id)
    &&& row.tool_name == e.tool_name
    &&& row.tool_input == Some(e.tool_input)
    &&& row.status@ == e.status.code_spec()
    &&& row.output == e.output
    &&& row.error == e.error
    &&& row.idempotency_key == e.idempotency_key
    &&& optional_instant_written(row.started_at, e.started_at)
    &&& optional_instant_written(row.completed_at, e.completed_at)
    &&& instant_written(row.created_at, e.base.created_at)
    &&& instant_written(row.updated_at, e.base.updated_at)
}

/// The tool execution read from a row, if the row is readable.
pub open spec fn execution_read(row: ToolExecutionRow, r: Option<ToolExecution>) -> bool {
    &&& r is Some <==> id_parses(row.id) && id_parses(row.goal_id) && id_parses(row.session_id)
        && id_parses(row.user_id)
    &&& r matches Some(e) ==> {
        &&& id_read(row.id, e.base.id)
        &&& id_read(row.goal_id, e.goal_id)
        &&& id_read(row.session_id, e.session_id)
        &&& id_read(row.user_id, e.user_id)
        &&& e.tool_name == row.tool_name
        &&& json_read(row.tool_input, e.tool_input)
        &&& e.status == ToolStatus::from_code_spec(row.status@)
        &&& e.output == row.output
        &&& e.error == row.error
        &&& e.idempotency_key == row.idempotency_key
        &&& optional_instant_read(row.started_at, e.started_at)
        &&& optional_instant_read(row.completed_at, e.completed_at)
        &&& instant_read(row.created_at, e.base.created_at)
        &&& instant_read(row.updated_at, e.base.updated_at)
    }
}

/// The row for a tool execution.
pub fn encode_execution(e: ToolExecution) -> (row: ToolExecutionRow)
    requires
        e.wf(),
    ensures
        execution_written(e, row),
{
    ToolExecutionRow {
        id: write_id(e.base.id),
        goal_id: write_id(e.goal_id),
        session_id: write_id(e.session_id),
        user_id: write_id(e.user_id),
        tool_name: e.tool_name,
        tool_input: Some(e.tool_input),
        status: String::from_str(e.status.code()),
        output: e.output,
        error: e.error,
        idempotency_key: e.idempotency_key,
        started_at: write_optional_instant(e.started_at),
        completed_at: write_optional_instant(e.completed_at),
        created_at: write_instant(e.base.created_at),
        updated_at: write_instant(e.base.updated_at),
    }
}

/// The tool execution in a row; `None` where an identifier of the row is
/// not one.
pub fn decode_execution(row: ToolExecutionRow) -> (r: Option<ToolExecution>)
    ensures
        execution_read(row, r),
{
    let id = match parse_id(row.id.as_str()) {
        Some(v) => v,
        None => {
            return None;
        },
    };
    let goal_id = match parse_id(row.goal_id.as_str()) {
        Some(v) => v,
        None => {
            return None;
        },
    };
    let session_id = match parse_id(row.session_id.as_str()) {
        Some(v) => v,
        None => {
            return None;
        },
    };
    let user_id = match parse_id(row.user_id.as_str()) {
        Some(v) => v,
        None => {
            return None;
        },
    };
    let created_at = read_instant(&row.created_at);
    let updated_at = read_instant(&row.updated_at);
    let started_at = read_optional_instant(&row.started_at);
    let completed_at = read_optional_instant(&row.completed_at);
    Some(
        ToolExecution {
            base: EntityBase { id, created_at, updated_at },
            goal_id,
            session_id,
            user_id,
            tool_name: row.tool_name,
            tool_input: read_json(row.tool_input),
            status: ToolStatus::from_code(row.status.as_str()),
            output: row.output,
            error: row.error,
            idempotency_key: row.idempotency_key,
            started_at,
            completed_at,
        },
    )
}

/// A tool execution written to a row reads back as the same execution,
/// provided its instants fall in years of four digits.
pub proof fn execution_row_round_trip(e: ToolExecution, row: ToolExecutionRow, r: Option<
    ToolExecution,
>)
    requires
        e.base.created_at.has_four_digit_year(),
        e.base.updated_at.has_four_digit_year(),
        optional_four_digit(e.started_at),
        optional_four_digit(e.completed_at),
        execution_written(e, row),
        execution_read(row, r),
    ensures
        r == Some(e),
{
    crate::models::status::tool_status_code_round_trip(e.status);
}

// ------------------------------------------------------------- memories

/// The texts of a list of tags.
pub open spec fn tag_texts(tags: Seq<String>) -> Seq<Seq<char>> {
    tags.map_values(|t: String| t@)
}

/// The tags that serde_json's `from_str::<Vec<String>>` reads from a text:
/// `None` where the text is not a JSON array of strings.
pub uninterp spec fn tags_from_text(text: Seq<char>) -> Option<Seq<Seq<char>>>;

/// The JSON array text that serde_json's `to_string` writes for a list of
/// tags.
pub uninterp spec fn tags_json_form(tags: Seq<Seq<char>>) -> Seq<char>;

/// Reads a stored tag column: calls serde_json's `from_str::<Vec<String>>`.
///
/// Claims that the tags read are `tags_from_text` of the text, and that
/// nothing is read exactly where that name gives nothing.
#[verifier::external_body]
fn parse_tags(text: &str) -> (r: Option<Vec<String>>)
    ensures
        r is None <==> tags_from_text(text@) is None,
        r matches Some(v) ==> tags_from_text(text@) == Some(tag_texts(v@)),
{
    serde_json::from_str::<Vec<String>>(text).ok()
}

/// Writes a tag column: calls serde_json's `to_string` on the tags.
///
/// Claims that the text is `tags_json_form` of the tags, and that
/// `from_str::<Vec<String>>` reads the same tags back: serde_json writes
/// each string with every character that JSON requires escaped, and its
/// parser undoes exactly those escapes. Writing a list of strings to a
/// `String` cannot fail, so the empty text of the error case never comes
/// back.
#[verifier::external_body]
fn tags_text(tags: &Vec<String>) -> (s: String)
    ensures
        s@ == tags_json_form(tag_texts(tags@)),
        tags_from_text(s@) == Some(tag_texts(tags@)),
{
    serde_json::to_string(tags).unwrap_or_default()
}

/// A row of the `memories` table.
#[derive(Debug)]
pub struct MemoryRow {
    pub id: String,
    pub user_id: String,
    pub memory_type: String,
    pub importance: String,
    pub content: String,
    pub embedding: Option<Vec<u32>>,
    pub source_session_id: Option<String>,
    pub source_tool_execution_id: Option<String>,
    pub tags: String,
    pub expires_at: Option<String>,
    pub created_at: String,
    pub updated_at: String,
}

/// The row written for a memory.
pub open spec fn memory_written(m: Memory, row: MemoryRow) -> bool {
    &&& id_written(row.id, m.base.id)
    &&& id_written(row.user_id, m.user_id)
    &&& row.memory_type@ == m.memory_type.code_spec()
    &&& row.importance@ == m.importance.code_spec()
    &&& row.content == m.content
    &&& row.embedding == m.embedding
    &&& optional_id_written(row.source_session_id, m.source_session_id)
    &&& optional_id_written(row.source_tool_execution_id, m.source_tool_execution_id)
    &&& row.tags@ == tags_json_form(tag_texts(m.tags@))
    &&& tags_from_text(row.tags@) == Some(tag_texts(m.tags@))
    &&& optional_instant_written(row.expires_at, m.expires_at)
    &&& instant_written(row.created_at, m.base.created_at)
    &&& instant_written(row.updated_at, m.base.updated_at)
}

/// The memory read from a row, if the row is readable.
pub open spec fn memory_read(row: MemoryRow, r: Option<Memory>) -> bool {
    &&& r is Some <==> id_parses(row.id) && id_parses(row.user_id) && optional_id_parses(
        row.source_session_id,
    ) && optional_id_parses(row.source_tool_execution_id)
    &&& r matches Some(m) ==> {
        &&& id_read(row.id, m.base.id)
        &&& id_read(row.user_id, m.user_id)
        &&& m.memory_type == MemoryType::from_code_spec(row.memory_type@)
        &&& m.importance == MemoryImportance::from_code_spec(row.importance@)
        &&& m.content == row.content
        &&& m.embedding == row.embedding
        &&& optional_id_read(row.source_session_id, m.source_session_id)
        &&& optional_id_read(row.source_tool_execution_id, m.source_tool_execution_id)
        &&& match tags_from_text(row.tags@) {
            Some(t) => tag_texts(m.tags@) == t,
            None => m.tags@.len() == 0,
        }
        &&& optional_instant_read(row.expires_at, m.expires_at)
        &&& instant_read(row.created_at, m.base.created_at)
        &&& instant_read(row.updated_at, m.base.updated_at)
    }
}

/// The row for a memory.
pub fn encode_memory(m: Memory) -> (row: MemoryRow)
    requires
        m.wf(),
    ensures
        memory_written(m, row),
{
    MemoryRow {
        id: write_id(m.base.id),
        user_id: write_id(m.user_id),
        memory_type: String::from_str(m.memory_type.code()),
        importance: String::from_str(m.importance.code()),
        content: m.content,
        embedding: m.embedding,
        source_session_id: write_optional_id(m.source_session_id),
        source_tool_execution_id: write_optional_id(m.source_tool_execution_id),
        tags: tags_text(&m.tags),
        expires_at: write_optional_instant(m.expires_at),
        created_at: write_instant(m.base.created_at),
        updated_at: write_instant(m.base.updated_at),
    }
}

/// The memory in a row; `None` where an identifier of the row is not one.
pub fn decode_memory(row: MemoryRow) -> (r: Option<Memory>)
    ensures
        memory_read(row, r),
{
    let id = match parse_id(row.id.as_str()) {
        Some(v) => v,
        None => {
            return None;
        },
    };
    let user_id = match parse_id(row.user_id.as_str()) {
        Some(v) => v,
        None => {
            return None;
        },
    };
    let source_session_id = match read_optional_id(&row.source_session_id) {
        Some(v) => v,
        None => {
            return None;
        },
    };
    let source_tool_execution_id = match read_optional_id(&row.source_tool_execution_id) {
        Some(v) => v,
        None => {
            return None;
        },
    };
    let created_at = read_instant(&row.created_at);
    let updated_at = read_instant(&row.updated_at);
    let expires_at = read_optional_instant(&row.expires_at);
    let tags = match parse_tags(row.tags.as_str()) {
        Some(t) => t,
        None => Vec::new(),
    };
    Some(
        Memory {
            base: EntityBase { id, created_at, updated_at },
            user_id,
            memory_type: MemoryType::from_code(row.memory_type.as_str()),
            importance: MemoryImportance::from_code(row.importance.as_str()),
            content: row.content,
            embedding: row.embedding,
            source_session_id,
            source_tool_execution_id,
            tags,
            expires_at,
        },
    )
}

/// A memory written to a row reads back as the same memory, provided its
/// instants fall in years of four digits: every field the same, the tags
/// the same texts in the same order.
pub proof fn memory_row_round_trip(m: Memory, row: MemoryRow, r: Option<Memory>)
    requires
        m.base.created_at.has_four_digit_year(),
        m.base.updated_at.has_four_digit_year(),
        optional_four_digit(m.expires_at),
        memory_written(m, row),
        memory_read(row, r),
    ensures
        r matches Some(x) && x == (Memory { tags: x.tags, ..m }) && tag_texts(x.tags@) == tag_texts(
            m.tags@,
        ),
{
    crate::models::status::memory_type_code_round_trip(m.memory_type);
    crate::models::status::memory_importance_code_round_trip(m.importance);
}

// ------------------------------------------------------------- channels

/// A row of the `channels` table.
#[derive(Debug)]
pub struct ChannelRow {
    pub id: String,
    pub user_id: String,
    pub channel_type: String,
    pub channel_name: String,
    pub channel_identifier: String,
    pub status: String,
    pub metadata: Option<JsonValue>,
    pub config: Option<JsonValue>,
    pub last_message_at: Option<String>,
    pub created_at: String,
    pub updated_at: String,
}

/// The row written for a channel.
pub open spec fn channel_written(c: Channel, row: ChannelRow) -> bool {
    &&& id_written(row.id, c.base.id)
    &&& id_written(row.user_id, c.user_id)
    &&& row.channel_type@ == c.channel_type.code_spec()
    &&& row.channel_name == c.channel_name
    &&& row.channel_identifier == c.channel_identifier
    &&& row.status@ == c.status.code_spec()
    &&& row.metadata == Some(c.metadata)
    &&& row.config == Some(c.config)
    &&& optional_instant_written(row.last_message_at, c.last_message_at)
    &&& instant_written(row.created_at, c.base.created_at)
    &&& instant_written(row.updated_at, c.base.updated_at)
}

/// The channel read from a row, if the row is readable.
pub open spec fn channel_read(row: ChannelRow, r: Option<Channel>) -> bool {
    &&& r is Some <==> id_parses(row.id) && id_parses(row.user_id)
    &&& r matches Some(c) ==> {
        &&& id_read(row.id, c.base.id)
        &&& id_read(row.user_id, c.user_id)
        &&& c.channel_type == ChannelType::from_code_spec(row.channel_type@)
        &&& c.channel_name == row.channel_name
        &&& c.channel_identifier == row.channel_identifier
        &&& c.status == ChannelStatus::from_code_spec(row.status@)
        &&& json_read(row.metadata, c.metadata)
        &&& json_read(row.config, c.config)
        &&& optional_instant_read(row.last_message_at, c.last_message_at)
        &&& instant_read(row.created_at, c.base.created_at)
        &&& instant_read(row.updated_at, c.base.updated_at)
    }
}

/// The row for a channel.
pub fn encode_channel(c: Channel) -> (row: ChannelRow)
    requires
        c.wf(),
    ensures
        channel_written(c, row),
{
    ChannelRow {
        id: write_id(c.base.id),
        user_id: write_id(c.user_id),
        channel_type: String::from_str(c.channel_type.code()),
        channel_name: c.channel_name,
        channel_identifier: c.channel_identifier,
        status: String::from_str(c.status.code()),
        metadata: Some(c.metadata),
        config: Some(c.config),
        last_message_at: write_optional_instant(c.last_message_at),
        created_at: write_instant(c.base.created_at),
        updated_at: write_instant(c.base.updated_at),
    }
}

/// The channel in a row; `None` where an identifier of the row is not one.
pub fn decode_channel(row: ChannelRow) -> (r: Option<Channel>)
    ensures
        channel_read(row, r),
{
    let id = match parse_id(row.id.as_str()) {
        Some(v) => v,
        None => {
            return None;
        },
    };
    let user_id = match parse_id(row.user_id.as_str()) {
        Some(v) => v,
        None => {
            return None;
        },
    };
    let created_at = read_instant(&row.created_at);
    let updated_at = read_instant(&row.updated_at);
    let last_message_at = read_optional_instant(&row.last_message_at);
    Some(
        Channel {
            base: EntityBase { id, created_at, updated_at },
            user_id,
            channel_type: ChannelType::from_code(row.channel_type.as_str()),
            channel_name: row.channel_name,
            channel_identifier: row.channel_identifier,
            status: ChannelStatus::from_code(row.status.as_str()),
            metadata: read_json(row.metadata),
            config: read_json(row.config),
            last_message_at,
        },
    )
}

/// A channel written to a row reads back as the same channel, provided its
/// instants fall in years of four digits.
pub proof fn channel_row_round_trip(c: Channel, row: ChannelRow, r: Option<Channel>)
    requires
        c.base.created_at.has_four_digit_year(),
        c.base.updated_at.has_four_digit_year(),
        optional_four_digit(c.last_message_at),
        channel_written(c, row),
        channel_read(row, r),
    ensures
        r == Some(c),
{
    crate::models::status::channel_type_code_round_trip(c.channel_type);
    crate::models::status::channel_status_code_round_trip(c.status);
}

// ---------------------------------------------------------- tool schemas

/// A row of the `tool_schemas` table. The parameters are carried as values:
/// the caller writes them as JSON when it binds them, and hands them back
/// parsed, with `None` where the stored text did not parse.
#[derive(Debug)]
pub struct ToolSchemaRow {
    pub id: String,
    pub tool_name: String,
    pub description: String,
    pub version: String,
    pub parameters: Option<Vec<ToolParameter>>,
    pub return_type: Option<String>,
    pub return_description: Option<String>,
    pub category: Option<String>,
    pub tags: String,
    pub enabled: bool,
    pub deprecated: bool,
    pub deprecation_message: Option<String>,
    pub created_at: String,
    pub updated_at: String,
}

/// The row written for a tool schema; the return type is written by its
/// name, as `{:?}` writes it.
pub open spec fn schema_written(s: ToolSchema, row: ToolSchemaRow) -> bool {
    &&& id_written(row.id, s.base.id)
    &&& row.tool_name == s.tool_name
    &&& row.description == s.description
    &&& row.version == s.version
    &&& row.parameters == Some(s.parameters)
    &&& match s.return_type {
        Some(t) => row.return_type matches Some(x) && x@ == t.name_spec(),
        None => row.return_type is None,
    }
    &&& row.return_description == s.return_description
    &&& row.category == s.category
    &&& row.tags@ == tags_json_form(tag_texts(s.tags@))
    &&& tags_from_text(row.tags@) == Some(tag_texts(s.tags@))
    &&& row.enabled == s.enabled
    &&& row.deprecated == s.deprecated
    &&& row.deprecation_message == s.deprecation_message
    &&& instant_written(row.created_at, s.base.created_at)
    &&& instant_written(row.updated_at, s.base.updated_at)
}

/// The first column of a row that does not read, in the order they are
/// read: the parameters (4), the tags (8), the identifier (0), the creation
/// instant (12) and the update instant (13).
pub open spec fn schema_bad_column(row: ToolSchemaRow) -> Option<usize> {
    if row.parameters is None {
        Some(4)
    } else if tags_from_text(row.tags@) is None {
        Some(8)
    } else if uuid_value(row.id@) is None {
        Some(0)
    } else if rfc3339_instant(row.created_at@) is None {
        Some(12)
    } else if rfc3339_instant(row.updated_at@) is None {
        Some(13)
    } else {
        None
    }
}

/// The tool schema read from a row whose columns all read.
pub open spec fn schema_read(row: ToolSchemaRow, s: ToolSchema) -> bool {
    &&& id_read(row.id, s.base.id)
    &&& s.tool_name == row.tool_name
    &&& s.description == row.description
    &&& s.version == row.version
    &&& row.parameters == Some(s.parameters)
    &&& s.return_type == match row.return_type {
        Some(x) => ParameterType::from_name_spec(x@),
        None => None,
    }
    &&& s.return_description == row.return_description
    &&& s.category == row.category
    &&& tags_from_text(row.tags@) == Some(tag_texts(s.tags@))
    &&& s.enabled == row.enabled
    &&& s.deprecated == row.deprecated
    &&& s.deprecation_message == row.deprecation_message
    &&& rfc3339_instant(row.created_at@) == Some(s.base.created_at.parts())
    &&& s.base.created_at.is_instant()
    &&& rfc3339_instant(row.updated_at@) == Some(s.base.updated_at.parts())
    &&& s.base.updated_at.is_instant()
}

/// What decoding a row gives: the number of the first column that does not
/// read, or the tool schema.
pub open spec fn schema_decoded(row: ToolSchemaRow, r: Result<ToolSchema, usize>) -> bool {
    &&& r is Err <==> schema_bad_column(row) is Some
    &&& r matches Err(c) ==> schema_bad_column(row) == Some(c)
    &&& r matches Ok(s) ==> schema_read(row, s)
}

/// The row for a tool schema.
pub fn encode_schema(s: ToolSchema) -> (row: ToolSchemaRow)
    requires
        s.base.wf(),
    ensures
        schema_written(s, row),
{
    let return_type = match s.return_type {
        Some(t) => Some(String::from_str(t.name())),
        None => None,
    };
    ToolSchemaRow {
        id: write_id(s.base.id),
        tool_name: s.tool_name,
        description: s.description,
        version: s.version,
        parameters: Some(s.parameters),
        return_type,
        return_description: s.return_description,
        category: s.category,
        tags: tags_text(&s.tags),
        enabled: s.enabled,
        deprecated: s.deprecated,
        deprecation_message: s.deprecation_message,
        created_at: write_instant(s.base.created_at),
        updated_at: write_instant(s.base.updated_at),
    }
}

/// The tool schema in a row, or the number of the first column that does
/// not read.
pub fn decode_schema(row: ToolSchemaRow) -> (r: Result<ToolSchema, usize>)
    ensures
        schema_decoded(row, r),
{
    let parameters = match row.parameters {
        Some(p) => p,
        None => {
            return Err(4);
        },
    };
    let tags = match parse_tags(row.tags.as_str()) {
        Some(t) => t,
        None => {
            return Err(8);
        },
    };
    let id = match parse_id(row.id.as_str()) {
        Some(v) => v,
        None => {
            return Err(0);
        },
    };
    let created_at = match parse_rfc3339(row.created_at.as_str()) {
        Some(t) => t,
        None => {
            return Err(12);
        },
    };
    let updated_at = match parse_rfc3339(row.updated_at.as_str()) {
        Some(t) => t,
        None => {
            return Err(13);
        },
    };
    let return_type = match &row.return_type {
        Some(x) => ParameterType::from_name(x.as_str()),
        None => None,
    };
    Ok(
        ToolSchema {
            base: EntityBase { id, created_at, updated_at },
            tool_name: row.tool_name,
            description: row.description,
            version: row.version,
            parameters,
            return_type,
            return_description: row.return_description,
            category: row.category,
            tags,
            enabled: row.enabled,
            deprecated: row.deprecated,
            deprecation_message: row.deprecation_message,
        },
    )
}

/// A tool schema written to a row reads back as the same schema, provided
/// its instants fall in years of four digits: every field the same, the
/// tags the same texts in the same order.
pub proof fn schema_row_round_trip(s: ToolSchema, row: ToolSchemaRow, r: Result<ToolSchema, usize>)
    requires
        s.base.created_at.has_four_digit_year(),
        s.base.updated_at.has_four_digit_year(),
        schema_written(s, row),
        schema_decoded(row, r),
    ensures
        r matches Ok(x) && x == (ToolSchema { tags: x.tags, ..s }) && tag_texts(x.tags@) == tag_texts(
            s.tags@,
        ),
{
    if let Some(t) = s.return_type {
        crate::models::tool_schema::parameter_type_name_round_trip(t);
    }
}

} // verus!
