//! Tool execution tracking model.
use crate::ids::{hex_digit, hex_digit_text};
use crate::json::JsonValue;
use crate::models::entity::{Entity, EntityBase};
use crate::models::goal::optional_instant;
use crate::models::status::ToolStatus;
use crate::time::{day_form, format_instant, utc_now, Timestamp};
use crate::digest::{
    equal_documents_write_alike, id_bytes, json_writes, text_writes, write_id, write_json,
    write_text,
};
use crate::json::json_eq;
use std::collections::hash_map::DefaultHasher;
use std::hash::Hasher;
use vstd::std_specs::hash::DefaultHasherAdditionalSpecFns;
use vstd::prelude::*;

verus! {

/// Record of a tool execution.
#[derive(Debug)]
pub struct ToolExecution {
    pub base: EntityBase,
    pub goal_id: u128,
    pub session_id: u128,
    pub user_id: u128,
    pub tool_name: String,
    pub tool_input: JsonValue,
    pub status: ToolStatus,
    pub output: Option<JsonValue>,
    pub error: Option<String>,
    pub idempotency_key: Option<String>,
    pub started_at: Option<Timestamp>,
    pub completed_at: Option<Timestamp>,
}

/// The lower-case hexadecimal digits of `n`, without leading zeros (`0`
/// for zero), as `format!("{:x}", n)` writes them.
pub open spec fn hex_form(n: nat) -> Seq<char>
    decreases n,
{
    if n < 16 {
        seq![hex_digit(n as int)]
    } else {
        hex_form(n / 16).push(hex_digit((n % 16) as int))
    }
}

/// The value of a lower-case hexadecimal digit.
pub open spec fn hex_digit_value(c: char) -> int {
    if '0' <= c && c <= '9' {
        (c as int) - ('0' as int)
    } else {
        (c as int) - ('a' as int) + 10
    }
}

/// The number that a text of hexadecimal digits denotes, most significant
/// digit first.
pub open spec fn hex_value(digits: Seq<char>) -> int
    decreases digits.len(),
{
    if digits.len() == 0 {
        0
    } else {
        hex_value(digits.drop_last()) * 16 + hex_digit_value(digits.last())
    }
}

/// The hexadecimal text of a digest denotes the digest: it is made of
/// lower-case hexadecimal digits, most significant first, with no leading
/// zero (but for zero itself), and their value is the number.
pub proof fn hex_form_denotes(n: nat)
    ensures
        hex_value(hex_form(n)) == n,
        hex_form(n).len() > 0,
        forall|i: int|
            0 <= i < hex_form(n).len() ==> {
                let c = #[trigger] hex_form(n)[i];
                ('0' <= c && c <= '9') || ('a' <= c && c <= 'f')
            },
        hex_form(n)[0] == '0' ==> n == 0,
    decreases n,
{
    let c = hex_digit((n % 16) as int);
    assert(hex_digit_value(c) == n % 16);
    assert(('0' <= c && c <= '9') || ('a' <= c && c <= 'f'));
    if n >= 16 {
        hex_form_denotes(n / 16);
        let d = hex_form(n);
        let r = hex_form(n / 16);
        assert(d.drop_last() =~= r);
        assert(d[0] == r[0]);
        assert(d.last() == c);
        assert(n == (n / 16) * 16 + n % 16);
        assert(hex_value(d) == hex_value(r) * 16 + hex_digit_value(c));
    } else {
        assert(hex_form(n).drop_last() =~= Seq::<char>::empty());
        assert(hex_value(Seq::<char>::empty()) == 0);
        assert(n % 16 == n);
        assert(hex_form(n).last() == c);
    }
}

/// The writes that make an execution's identity, in order: the user,
/// session and goal identifiers, the tool name and the tool input.
pub open spec fn identity_writes(
    user_id: u128,
    session_id: u128,
    goal_id: u128,
    tool_name: Seq<char>,
    tool_input: JsonValue,
) -> Seq<Seq<u8>> {
    seq![id_bytes(user_id), id_bytes(session_id), id_bytes(goal_id)] + text_writes(tool_name)
        + json_writes(tool_input)
}

/// The 64-bit digest of an execution's identity: what a fresh std
/// `DefaultHasher` finishes with after the identity's writes.
pub open spec fn identity_digest(
    user_id: u128,
    session_id: u128,
    goal_id: u128,
    tool_name: Seq<char>,
    tool_input: JsonValue,
) -> u64 {
    DefaultHasher::spec_finish(identity_writes(user_id, session_id, goal_id, tool_name, tool_input))
}

/// The automatic idempotency key for a tool on a day, with the digest of
/// the execution's identity: `auto:{tool_name}:{day}:{digest in hex}`.
pub open spec fn auto_key_form(tool_name: Seq<char>, day: Seq<char>, digest: u64) -> Seq<char> {
    "auto:"@ + tool_name + ":"@ + day + ":"@ + hex_form(digest as nat)
}

/// Hashes an execution's identity with a fresh std `DefaultHasher`.
fn identity_hash(
    user_id: u128,
    session_id: u128,
    goal_id: u128,
    tool_name: &str,
    tool_input: &JsonValue,
) -> (h: u64)
    ensures
        h == identity_digest(user_id, session_id, goal_id, tool_name@, *tool_input),
{
    let mut hasher = DefaultHasher::new();
    write_id(&mut hasher, user_id);
    write_id(&mut hasher, session_id);
    write_id(&mut hasher, goal_id);
    write_text(&mut hasher, tool_name);
    write_json(&mut hasher, tool_input);
    proof {
        assert(hasher@ =~= identity_writes(user_id, session_id, goal_id, tool_name@, *tool_input));
    }
    hasher.finish()
}

/// Writes a number in lower-case hexadecimal, as `format!("{:x}", n)`
/// writes it: the digits without prefix or leading zeros.
fn hex_text(n: u64) -> (s: String)
    ensures
        s@ == hex_form(n as nat),
    decreases n,
{
    if n < 16 {
        hex_digit_text(n).to_owned()
    } else {
        let mut s = hex_text(n / 16);
        s.append(hex_digit_text(n % 16));
        s
    }
}

impl ToolExecution {
    /// The execution's instants are ones chrono can represent.
    pub open spec fn wf(self) -> bool {
        &&& self.base.wf()
        &&& optional_instant(self.started_at)
        &&& optional_instant(self.completed_at)
    }

    /// `after` is `before` finished with `status`: the completion instant is
    /// set, the update instant moved, and nothing else changed.
    pub open spec fn finished(before: ToolExecution, after: ToolExecution, status: ToolStatus) -> bool {
        &&& after == (ToolExecution {
            status,
            completed_at: after.completed_at,
            base: EntityBase { updated_at: after.base.updated_at, ..before.base },
            ..before
        })
        &&& after.completed_at matches Some(t) && t.is_instant()
        &&& after.base.updated_at.is_instant()
    }

    /// A new pending execution of the tool on the input, with no output,
    /// error or idempotency key, neither started nor completed.
    pub fn new(
        user_id: u128,
        session_id: u128,
        goal_id: u128,
        tool_name: String,
        tool_input: JsonValue,
    ) -> (e: ToolExecution)
        ensures
            e.wf(),
            e.base.created_at == e.base.updated_at,
            e.goal_id == goal_id,
            e.session_id == session_id,
            e.user_id == user_id,
            e.tool_name == tool_name,
            e.tool_input == tool_input,
            e.status == ToolStatus::Pending,
            e.output is None,
            e.error is None,
            e.idempotency_key is None,
            e.started_at is None,
            e.completed_at is None,
    {
        ToolExecution {
            base: EntityBase::new(),
            goal_id,
            session_id,
            user_id,
            tool_name,
            tool_input,
            status: ToolStatus::Pending,
            output: None,
            error: None,
            idempotency_key: None,
            started_at: None,
            completed_at: None,
        }
    }

    /// The execution under the given idempotency key.
    pub fn with_idempotency_key(self, key: String) -> (e: ToolExecution)
        ensures
            e == (ToolExecution { idempotency_key: Some(key), ..self }),
    {
        let mut e = self;
        e.idempotency_key = Some(key);
        e
    }

    /// The automatic idempotency key of an execution on a given day (the
    /// `%Y%m%d` text of a UTC date): `auto:{tool_name}:{day}:{digest}`.
    pub fn idempotency_key_for_day(
        user_id: u128,
        session_id: u128,
        goal_id: u128,
        tool_name: &str,
        tool_input: &JsonValue,
        day: &str,
    ) -> (key: String)
        ensures
            key@ == auto_key_form(
                tool_name@,
                day@,
                identity_digest(user_id, session_id, goal_id, tool_name@, *tool_input),
            ),
    {
        let digest = identity_hash(user_id, session_id, goal_id, tool_name, tool_input);
        let mut key = String::from_str("auto:");
        key.append(tool_name);
        key.append(":");
        key.append(day);
        key.append(":");
        let hex = hex_text(digest);
        key.append(hex.as_str());
        key
    }

    /// The automatic idempotency key of an execution today: the same
    /// identity on the same UTC day always gets the same key.
    pub fn generate_idempotency_key(
        user_id: u128,
        session_id: u128,
        goal_id: u128,
        tool_name: &str,
        tool_input: &JsonValue,
    ) -> (key: String)
        ensures
            exists|t: Timestamp|
                t.is_instant() && key@ == auto_key_form(
                    tool_name@,
                    #[trigger] day_form(t.secs, t.nanos),
                    identity_digest(user_id, session_id, goal_id, tool_name@, *tool_input),
                ),
    {
        let now = utc_now();
        let day = format_instant(now, "%Y%m%d");
        assert(day@ == day_form(now.secs, now.nanos));
        ToolExecution::idempotency_key_for_day(
            user_id,
            session_id,
            goal_id,
            tool_name,
            tool_input,
            day.as_str(),
        )
    }

    /// Marks the execution running, started now.
    pub fn start(&mut self)
        ensures
            *final(self) == (ToolExecution {
                status: ToolStatus::Running,
                started_at: final(self).started_at,
                base: EntityBase { updated_at: final(self).base.updated_at, ..old(self).base },
                ..*old(self)
            }),
            final(self).started_at matches Some(t) && t.is_instant(),
            final(self).base.updated_at.is_instant(),
    {
        self.status = ToolStatus::Running;
        self.started_at = Some(utc_now());
        self.base.updated_at = utc_now();
    }

    /// Marks the execution completed now, with the given output.
    pub fn complete(&mut self, output: JsonValue)
        ensures
            *final(self) == (ToolExecution {
                status: ToolStatus::Completed,
                output: Some(output),
                completed_at: final(self).completed_at,
                base: EntityBase { updated_at: final(self).base.updated_at, ..old(self).base },
                ..*old(self)
            }),
            final(self).completed_at matches Some(t) && t.is_instant(),
            final(self).base.updated_at.is_instant(),
    {
        self.status = ToolStatus::Completed;
        self.output = Some(output);
        self.completed_at = Some(utc_now());
        self.base.updated_at = utc_now();
    }

    /// Marks the execution failed now, with the given error.
    pub fn fail(&mut self, error: String)
        ensures
            *final(self) == (ToolExecution {
                status: ToolStatus::Failed,
                error: Some(error),
                completed_at: final(self).completed_at,
                base: EntityBase { updated_at: final(self).base.updated_at, ..old(self).base },
                ..*old(self)
            }),
            final(self).completed_at matches Some(t) && t.is_instant(),
            final(self).base.updated_at.is_instant(),
    {
        self.status = ToolStatus::Failed;
        self.error = Some(error);
        self.completed_at = Some(utc_now());
        self.base.updated_at = utc_now();
    }

    /// Marks the execution cancelled now.
    pub fn cancel(&mut self)
        ensures
            ToolExecution::finished(*old(self), *final(self), ToolStatus::Cancelled),
    {
        self.status = ToolStatus::Cancelled;
        self.completed_at = Some(utc_now());
        self.base.updated_at = utc_now();
    }
}

/// The same identity on the same day gets the same automatic key, where
/// the tool inputs need only be equal as serde_json compares them (so
/// `{"x": 0.0}` and `{"x": -0.0}` share a key); and the key names its tool
/// after the `auto:` prefix.
pub proof fn same_identity_same_day_same_key(
    user_id: u128,
    session_id: u128,
    goal_id: u128,
    tool_name: Seq<char>,
    input1: JsonValue,
    input2: JsonValue,
    day: Seq<char>,
    key1: Seq<char>,
    key2: Seq<char>,
)
    requires
        json_eq(input1, input2),
        key1 == auto_key_form(
            tool_name,
            day,
            identity_digest(user_id, session_id, goal_id, tool_name, input1),
        ),
        key2 == auto_key_form(
            tool_name,
            day,
            identity_digest(user_id, session_id, goal_id, tool_name, input2),
        ),
    ensures
        key1 == key2,
        key1.subrange(0, 5) == "auto:"@,
        key1.subrange(5, 5 + tool_name.len() as int) == tool_name,
{
    equal_documents_write_alike(input1, input2);
    assert(identity_writes(user_id, session_id, goal_id, tool_name, input1) =~= identity_writes(
        user_id,
        session_id,
        goal_id,
        tool_name,
        input2,
    ));
    reveal_strlit("auto:");
    assert(key1.subrange(0, 5) =~= "auto:"@);
    assert(key1.subrange(5, 5 + tool_name.len() as int) =~= tool_name);
}

impl Entity for ToolExecution {
    fn id(&self) -> (r: u128)
        ensures
            r == self.base.id,
    {
        self.base.id
    }

    fn entity_type() -> (r: &'static str)
        ensures
            r@ == "tool_execution"@,
    {
        "tool_execution"
    }

    fn created_at(&self) -> (r: Timestamp)
        ensures
            r == self.base.created_at,
    {
        self.base.created_at
    }

    fn updated_at(&self) -> (r: Timestamp)
        ensures
            r == self.base.updated_at,
    {
        self.base.updated_at
    }
}

/// Query for finding duplicate tool executions.
#[derive(Debug)]
pub struct ToolExecutionQuery {
    pub goal_id: Option<u128>,
    pub session_id: Option<u128>,
    pub tool_name: Option<String>,
    pub idempotency_key: Option<String>,
    pub status: Option<ToolStatus>,
}

} // verus!
