//! The report of a session replay: the session, then each goal in turn
//! with its tool executions, then the totals.
use crate::ids::{hex_digit, hex_digit_text, id_text, uuid_text};
use crate::models::goal::Goal;
use crate::models::session::Session;
use crate::models::tool_execution::ToolExecution;
use crate::time::{format_instant, instant_format, Timestamp};
use vstd::prelude::*;
use vstd::string::StringSliceAdditionalSpecFns;
use vstd::utf8::{
    decode_utf8, encode_utf8, encode_utf8_decode_utf8, encode_utf8_valid_utf8, is_char_boundary,
    valid_utf8,
};

verus! {

/// How many bytes of a tool output's text a replay shows at most.
pub const OUTPUT_PREVIEW_BYTES: usize = 60;

/// A tool execution as a replay shows it: the execution, and the JSON texts
/// of its input and, if it has one, its output.
#[derive(Debug)]
pub struct ReplayExecution {
    pub execution: ToolExecution,
    pub input_json: String,
    pub output_json: Option<String>,
}

/// The texts of a list of lines.
pub open spec fn texts(lines: Seq<String>) -> Seq<Seq<char>> {
    lines.map_values(|l: String| l@)
}

/// The decimal digits of `n`, without sign or leading zeros (`0` for zero).
pub open spec fn decimal_form(n: nat) -> Seq<char>
    decreases n,
{
    if n < 10 {
        seq![hex_digit(n as int)]
    } else {
        decimal_form(n / 10).push(hex_digit((n % 10) as int))
    }
}

/// The number that a text of decimal digits denotes, most significant
/// digit first.
pub open spec fn digits_value(digits: Seq<char>) -> int
    decreases digits.len(),
{
    if digits.len() == 0 {
        0
    } else {
        digits_value(digits.drop_last()) * 10 + ((digits.last() as int) - ('0' as int))
    }
}

/// Whether a character is a decimal digit.
pub open spec fn is_decimal_digit(c: char) -> bool {
    '0' <= c && c <= '9'
}

/// The text written for a count denotes the count in decimal: it is made of
/// digits, most significant first, with no leading zero (but for zero
/// itself), and their value is the count.
pub proof fn decimal_form_denotes(n: nat)
    ensures
        digits_value(decimal_form(n)) == n,
        decimal_form(n).len() > 0,
        forall|i: int| 0 <= i < decimal_form(n).len() ==> is_decimal_digit(#[trigger] decimal_form(n)[i]),
        decimal_form(n)[0] == '0' ==> n == 0,
    decreases n,
{
    let c = hex_digit((n % 10) as int);
    assert((c as int) - ('0' as int) == n % 10);
    if n >= 10 {
        decimal_form_denotes(n / 10);
        let d = decimal_form(n);
        let r = decimal_form(n / 10);
        assert(d.drop_last() =~= r);
        assert(d[0] == r[0]);
        assert(d.last() == c);
        assert(n == (n / 10) * 10 + n % 10);
        assert(digits_value(d) == digits_value(r) * 10 + (c as int - '0' as int));
    } else {
        assert(decimal_form(n).drop_last() =~= Seq::<char>::empty());
        assert(digits_value(Seq::<char>::empty()) == 0);
        assert(n % 10 == n);
        assert(decimal_form(n).last() == c);
    }
}

/// Writes a count in decimal, as `format!("{}", n)` writes it: the digits
/// without sign or leading zeros.
fn decimal_text(n: usize) -> (s: String)
    ensures
        s@ == decimal_form(n as nat),
    decreases n,
{
    if n < 10 {
        hex_digit_text(n as u64).to_owned()
    } else {
        let mut s = decimal_text(n / 10);
        s.append(hex_digit_text((n % 10) as u64));
        s
    }
}

/// The last character boundary of UTF-8 bytes at or below `i`.
pub open spec fn last_boundary(bytes: Seq<u8>, i: int) -> int
    decreases i,
{
    if i <= 0 {
        0
    } else if is_char_boundary(bytes, i) {
        i
    } else {
        last_boundary(bytes, i - 1)
    }
}

/// A text shown in at most `limit` bytes: itself where its UTF-8 form has
/// at most `limit` bytes, else the characters of its first `limit` bytes,
/// cut back to the last whole character, followed by `...`.
pub open spec fn preview_form(text: Seq<char>, limit: nat) -> Seq<char> {
    let bytes = encode_utf8(text);
    if bytes.len() <= limit {
        text
    } else {
        decode_utf8(bytes.subrange(0, last_boundary(bytes, limit as int))) + "..."@
    }
}

/// The date and time of an instant in a replay.
pub open spec fn stamp(t: Timestamp) -> Seq<char> {
    instant_format(t.secs, t.nanos, "%Y-%m-%d %H:%M:%S UTC"@)
}

/// The time of day of an instant in a replay.
pub open spec fn clock(t: Timestamp) -> Seq<char> {
    instant_format(t.secs, t.nanos, "%H:%M:%S"@)
}

/// One line with a prefix, for a present value; none for an absent one.
pub open spec fn optional_line(prefix: Seq<char>, value: Option<Seq<char>>) -> Seq<Seq<char>> {
    match value {
        Some(v) => seq![prefix + v],
        None => Seq::empty(),
    }
}

/// The lines of the session's header.
pub open spec fn session_lines(s: Session) -> Seq<Seq<char>> {
    seq![
        "╔════════════════════════════════════════════════════════════════╗"@,
        "║                    SESSION REPLAY                              ║"@,
        "╚════════════════════════════════════════════════════════════════╝"@,
        ""@,
        "Session ID:     "@ + uuid_text(s.base.id),
        "User ID:        "@ + uuid_text(s.user_id),
        "Status:         "@ + s.status.name_spec(),
        "Created:        "@ + stamp(s.base.created_at),
        "Last Activity:  "@ + stamp(s.last_activity_at),
        ""@,
    ]
}

/// The heading of the goal list, with the number of goals.
pub open spec fn goals_heading(n: nat) -> Seq<Seq<char>> {
    seq!["┌─────────────────────────────────────────────────────────────────┐"@, "│ GOALS ("@ + decimal_form(n) + ")                                                        │"@, "└─────────────────────────────────────────────────────────────────┘"@]
}

/// The lines of one tool execution.
pub open spec fn execution_lines(r: ReplayExecution) -> Seq<Seq<char>> {
    let e = r.execution;
    seq![
        "  │"@,
        "  │  Tool:      "@ + e.tool_name@,
        "  │  Status:    "@ + e.status.name_spec(),
        "  │  Input:     "@ + r.input_json@,
    ] + optional_line(
        "  │  Output:    "@,
        match r.output_json {
            Some(o) => Some(preview_form(o@, OUTPUT_PREVIEW_BYTES as nat)),
            None => None,
        },
    ) + optional_line(
        "  │  Error:     "@,
        match e.error {
            Some(x) => Some(x@),
            None => None,
        },
    ) + optional_line(
        "  │  Idempotency Key: "@,
        match e.idempotency_key {
            Some(k) => Some(k@),
            None => None,
        },
    ) + seq!["  │  Time:      "@ + clock(e.base.created_at)]
}

/// The lines of a goal's tool executions, in order.
pub open spec fn executions_lines(rs: Seq<ReplayExecution>) -> Seq<Seq<char>>
    decreases rs.len(),
{
    if rs.len() == 0 {
        Seq::empty()
    } else {
        executions_lines(rs.drop_last()) + execution_lines(rs.last())
    }
}

/// The lines that describe goal number `number` (from 1): the
/// description only where it is not empty, the instants only where they
/// are set.
pub open spec fn goal_head_lines(number: nat, g: Goal) -> Seq<Seq<char>> {
    seq![
        ""@,
        "  Goal #"@ + decimal_form(number) + ": "@ + g.title@,
        "  ID:          "@ + uuid_text(g.base.id),
        "  Status:      "@ + g.status.name_spec(),
        "  Priority:    "@ + g.priority.name_spec(),
    ] + optional_line(
        "  Description: "@,
        match g.description {
            Some(d) => if d@.len() > 0 {
                Some(d@)
            } else {
                None
            },
            None => None,
        },
    ) + optional_line(
        "  Started:     "@,
        match g.started_at {
            Some(t) => Some(stamp(t)),
            None => None,
        },
    ) + optional_line(
        "  Completed:   "@,
        match g.completed_at {
            Some(t) => Some(stamp(t)),
            None => None,
        },
    )
}

/// The block of a goal's tool executions, where there are some.
pub open spec fn executions_block(rs: Seq<ReplayExecution>) -> Seq<Seq<char>> {
    if rs.len() > 0 {
        seq![""@, "  ┌── TOOL EXECUTIONS ("@ + decimal_form(rs.len()) + ") ──"@] + executions_lines(rs)
            + seq!["  └───────────────────────────"@]
    } else {
        Seq::empty()
    }
}

/// The lines of goal number `number` (from 1) with its tool executions.
pub open spec fn goal_lines(number: nat, g: Goal, rs: Seq<ReplayExecution>) -> Seq<Seq<char>> {
    goal_head_lines(number, g) + executions_block(rs)
}

/// The lines of the goals, numbered from 1, each with its executions.
pub open spec fn goals_lines(gs: Seq<Goal>, es: Seq<Seq<ReplayExecution>>) -> Seq<Seq<char>>
    decreases gs.len(),
{
    if gs.len() == 0 || es.len() != gs.len() {
        Seq::empty()
    } else {
        goals_lines(gs.drop_last(), es.drop_last()) + goal_lines(gs.len(), gs.last(), es.last())
    }
}

/// How many executions the goals have in all.
pub open spec fn total_executions(es: Seq<Seq<ReplayExecution>>) -> nat
    decreases es.len(),
{
    if es.len() == 0 {
        0
    } else {
        total_executions(es.drop_last()) + es.last().len()
    }
}

/// The closing lines: the number of goals and of executions.
pub open spec fn closing_lines(goals: nat, executions: nat) -> Seq<Seq<char>> {
    seq![
        ""@,
        "══════════════════════════════════════════════════════════════════"@,
        "Replay complete. "@ + decimal_form(goals) + " goal(s), "@ + decimal_form(executions)
            + " execution(s) total."@,
    ]
}

/// The whole report of a replay.
pub open spec fn replay_lines(s: Session, gs: Seq<Goal>, es: Seq<Seq<ReplayExecution>>) -> Seq<
    Seq<char>,
> {
    session_lines(s) + goals_heading(gs.len()) + goals_lines(gs, es) + closing_lines(
        gs.len(),
        total_executions(es),
    )
}

/// The instants of every execution are ones chrono can represent.
pub open spec fn executions_wf(rs: Seq<ReplayExecution>) -> bool {
    forall|j: int| 0 <= j < rs.len() ==> (#[trigger] rs[j]).execution.wf()
}

/// Appends a line.
fn push_line(lines: &mut Vec<String>, l: String)
    ensures
        texts(final(lines)@) == texts(old(lines)@).push(l@),
{
    let ghost before = lines@;
    lines.push(l);
    proof {
        assert(texts(lines@) =~= texts(before).push(l@));
    }
}

/// `a` followed by `b`.
fn cat(a: &str, b: &str) -> (s: String)
    ensures
        s@ == a@ + b@,
{
    let mut s = a.to_owned();
    s.append(b);
    s
}

/// Appends a line for a present value.
fn push_optional(lines: &mut Vec<String>, prefix: &str, value: Option<String>)
    ensures
        texts(final(lines)@) == texts(old(lines)@) + optional_line(
            prefix@,
            match value {
                Some(v) => Some(v@),
                None => None,
            },
        ),
{
    let ghost before = texts(lines@);
    match value {
        Some(v) => {
            push_line(lines, cat(prefix, v.as_str()));
            proof {
                assert(texts(lines@) =~= before + optional_line(prefix@, Some(v@)));
            }
        },
        None => {
            proof {
                assert(texts(lines@) =~= before + optional_line(prefix@, None));
            }
        },
    }
}

/// A text shown in at most `limit` bytes: the text itself when it has at
/// most `limit` bytes, else its first `limit` bytes, cut back to the last
/// whole character, followed by `...`. The cut falls between characters,
/// never inside one.
pub fn output_preview(text: &str, limit: usize) -> (r: String)
    ensures
        r@ == preview_form(text@, limit as nat),
{
    proof {
        encode_utf8_valid_utf8(text@);
        encode_utf8_decode_utf8(text@);
    }
    let ghost bytes = encode_utf8(text@);
    assert(text.spec_bytes() == bytes);
    let n = text.as_bytes().len();
    if n <= limit {
        let whole = text.to_owned();
        assert(whole@ == preview_form(text@, limit as nat));
        return whole;
    }
    let mut k: usize = limit;
    while !text.is_char_boundary(k)
        invariant
            0 <= k <= limit,
            limit < bytes.len(),
            bytes == text.spec_bytes(),
            valid_utf8(bytes),
            last_boundary(bytes, k as int) == last_boundary(bytes, limit as int),
        decreases k,
    {
        assert(k != 0);
        k = k - 1;
    }
    let (head, _) = text.split_at(k);
    proof {
        encode_utf8_decode_utf8(head@);
        assert(head.spec_bytes() =~= bytes.subrange(0, k as int));
    }
    let mut r = head.to_owned();
    r.append("...");
    r
}

/// Appends the lines of one tool execution.
fn report_execution(lines: &mut Vec<String>, r: &ReplayExecution)
    requires
        r.execution.wf(),
    ensures
        texts(final(lines)@) == texts(old(lines)@) + execution_lines(*r),
{
    let ghost before = texts(lines@);
    let e = &r.execution;
    push_line(lines, String::from_str("  │"));
    push_line(lines, cat("  │  Tool:      ", e.tool_name.as_str()));
    push_line(lines, cat("  │  Status:    ", e.status.name()));
    push_line(lines, cat("  │  Input:     ", r.input_json.as_str()));
    let ghost mid = texts(lines@);
    let output = match &r.output_json {
        Some(o) => Some(output_preview(o.as_str(), OUTPUT_PREVIEW_BYTES)),
        None => None,
    };
    push_optional(lines, "  │  Output:    ", output);
    let error = match &e.error {
        Some(x) => Some(x.clone()),
        None => None,
    };
    push_optional(lines, "  │  Error:     ", error);
    let key = match &e.idempotency_key {
        Some(k) => Some(k.clone()),
        None => None,
    };
    push_optional(lines, "  │  Idempotency Key: ", key);
    let time = format_instant(e.base.created_at, "%H:%M:%S");
    push_line(lines, cat("  │  Time:      ", time.as_str()));
    proof {
        assert(texts(lines@) =~= before + execution_lines(*r));
    }
}

proof fn lemma_executions_lines_step(rs: Seq<ReplayExecution>, j: int)
    requires
        0 <= j < rs.len(),
    ensures
        executions_lines(rs.take(j + 1)) == executions_lines(rs.take(j)) + execution_lines(rs[j]),
{
    assert(rs.take(j + 1).drop_last() =~= rs.take(j));
}

/// Appends the lines that describe a goal.
fn report_goal_head(lines: &mut Vec<String>, number: usize, g: &Goal)
    requires
        g.wf(),
    ensures
        texts(final(lines)@) == texts(old(lines)@) + goal_head_lines(number as nat, *g),
{
    let ghost before = texts(lines@);
    push_line(lines, String::from_str(""));
    let num = decimal_text(number);
    let head = cat("  Goal #", num.as_str());
    let head = cat(head.as_str(), ": ");
    push_line(lines, cat(head.as_str(), g.title.as_str()));
    push_line(lines, cat("  ID:          ", id_text(g.base.id).as_str()));
    push_line(lines, cat("  Status:      ", g.status.name()));
    push_line(lines, cat("  Priority:    ", g.priority.name()));
    let description = match &g.description {
        Some(d) => if d.unicode_len() > 0 {
            Some(d.clone())
        } else {
            None
        },
        None => None,
    };
    push_optional(lines, "  Description: ", description);
    let started = match g.started_at {
        Some(t) => Some(format_instant(t, "%Y-%m-%d %H:%M:%S UTC")),
        None => None,
    };
    push_optional(lines, "  Started:     ", started);
    let completed = match g.completed_at {
        Some(t) => Some(format_instant(t, "%Y-%m-%d %H:%M:%S UTC")),
        None => None,
    };
    push_optional(lines, "  Completed:   ", completed);
    proof {
        assert(texts(lines@) =~= before + goal_head_lines(number as nat, *g));
    }
}

/// Appends the block of a goal's tool executions.
fn report_executions(lines: &mut Vec<String>, rs: &Vec<ReplayExecution>)
    requires
        executions_wf(rs@),
    ensures
        texts(final(lines)@) == texts(old(lines)@) + executions_block(rs@),
{
    let ghost before = texts(lines@);
    if rs.len() > 0 {
        push_line(lines, String::from_str(""));
        let count = decimal_text(rs.len());
        let block = cat("  ┌── TOOL EXECUTIONS (", count.as_str());
        push_line(lines, cat(block.as_str(), ") ──"));
        let ghost start = texts(lines@);
        let mut j: usize = 0;
        while j < rs.len()
            invariant
                0 <= j <= rs.len(),
                executions_wf(rs@),
                texts(lines@) == start + executions_lines(rs@.take(j as int)),
            decreases rs.len() - j,
        {
            proof {
                lemma_executions_lines_step(rs@, j as int);
            }
            report_execution(lines, &rs[j]);
            proof {
                assert(texts(lines@) =~= start + executions_lines(rs@.take(j + 1)));
            }
            j = j + 1;
        }
        proof {
            assert(rs@.take(rs.len() as int) =~= rs@);
        }
        push_line(lines, String::from_str("  └───────────────────────────"));
    }
    proof {
        assert(texts(lines@) =~= before + executions_block(rs@));
    }
}

/// Appends the lines of a goal with its tool executions.
fn report_goal(lines: &mut Vec<String>, number: usize, g: &Goal, rs: &Vec<ReplayExecution>)
    requires
        g.wf(),
        executions_wf(rs@),
    ensures
        texts(final(lines)@) == texts(old(lines)@) + goal_lines(number as nat, *g, rs@),
{
    let ghost before = texts(lines@);
    report_goal_head(lines, number, g);
    report_executions(lines, rs);
    proof {
        assert(texts(lines@) =~= before + goal_lines(number as nat, *g, rs@));
    }
}

proof fn lemma_goals_lines_step(gs: Seq<Goal>, es: Seq<Seq<ReplayExecution>>, i: int)
    requires
        0 <= i < gs.len(),
        gs.len() == es.len(),
    ensures
        goals_lines(gs.take(i + 1), es.take(i + 1)) == goals_lines(gs.take(i), es.take(i))
            + goal_lines((i + 1) as nat, gs[i], es[i]),
        total_executions(es.take(i + 1)) == total_executions(es.take(i)) + es[i].len(),
{
    assert(gs.take(i + 1).drop_last() =~= gs.take(i));
    assert(es.take(i + 1).drop_last() =~= es.take(i));
}

proof fn lemma_total_prefix(es: Seq<Seq<ReplayExecution>>, i: int)
    requires
        0 <= i <= es.len(),
    ensures
        total_executions(es.take(i)) <= total_executions(es),
    decreases es.len() - i,
{
    if i < es.len() {
        lemma_total_prefix(es, i + 1);
        assert(es.take(i + 1).drop_last() =~= es.take(i));
    } else {
        assert(es.take(i) =~= es);
    }
}

/// The report of a session replay, line by line: the session's header,
/// the goals in order, each numbered and followed by its executions, and
/// the numbers of goals and executions.
pub fn replay_report(
    session: &Session,
    goals: &Vec<Goal>,
    executions: &Vec<Vec<ReplayExecution>>,
) -> (lines: Vec<String>)
    requires
        session.wf(),
        goals@.len() == executions@.len(),
        forall|i: int| 0 <= i < goals@.len() ==> (#[trigger] goals@[i]).wf(),
        forall|i: int| 0 <= i < executions@.len() ==> executions_wf(#[trigger] executions@[i]@),
        total_executions(executions@.map_values(|v: Vec<ReplayExecution>| v@)) <= usize::MAX,
    ensures
        texts(lines@) == replay_lines(
            *session,
            goals@,
            executions@.map_values(|v: Vec<ReplayExecution>| v@),
        ),
{
    let ghost es = executions@.map_values(|v: Vec<ReplayExecution>| v@);
    let mut lines: Vec<String> = Vec::new();
    push_line(&mut lines, String::from_str("╔════════════════════════════════════════════════════════════════╗"));
    push_line(&mut lines, String::from_str("║                    SESSION REPLAY                              ║"));
    push_line(&mut lines, String::from_str("╚════════════════════════════════════════════════════════════════╝"));
    push_line(&mut lines, String::from_str(""));
    push_line(&mut lines, cat("Session ID:     ", id_text(session.base.id).as_str()));
    push_line(&mut lines, cat("User ID:        ", id_text(session.user_id).as_str()));
    push_line(&mut lines, cat("Status:         ", session.status.name()));
    let created = format_instant(session.base.created_at, "%Y-%m-%d %H:%M:%S UTC");
    push_line(&mut lines, cat("Created:        ", created.as_str()));
    let active = format_instant(session.last_activity_at, "%Y-%m-%d %H:%M:%S UTC");
    push_line(&mut lines, cat("Last Activity:  ", active.as_str()));
    push_line(&mut lines, String::from_str(""));
    push_line(&mut lines, String::from_str("┌─────────────────────────────────────────────────────────────────┐"));
    let n = decimal_text(goals.len());
    let heading = cat("│ GOALS (", n.as_str());
    push_line(&mut lines, cat(heading.as_str(), ")                                                        │"));
    push_line(&mut lines, String::from_str("└─────────────────────────────────────────────────────────────────┘"));
    let ghost start = texts(lines@);
    proof {
        assert(start =~= session_lines(*session) + goals_heading(goals@.len()));
    }
    let mut total: usize = 0;
    let mut i: usize = 0;
    while i < goals.len()
        invariant
            0 <= i <= goals@.len(),
            goals@.len() == executions@.len(),
            es == executions@.map_values(|v: Vec<ReplayExecution>| v@),
            forall|k: int| 0 <= k < goals@.len() ==> (#[trigger] goals@[k]).wf(),
            forall|k: int| 0 <= k < executions@.len() ==> executions_wf(#[trigger] executions@[k]@),
            total_executions(es) <= usize::MAX,
            total == total_executions(es.take(i as int)),
            texts(lines@) == start + goals_lines(goals@.take(i as int), es.take(i as int)),
        decreases goals.len() - i,
    {
        proof {
            lemma_goals_lines_step(goals@, es, i as int);
            lemma_total_prefix(es, i + 1);
            assert(es[i as int] == executions@[i as int]@);
        }
        report_goal(&mut lines, i + 1, &goals[i], &executions[i]);
        total = total + executions[i].len();
        proof {
            assert(texts(lines@) =~= start + goals_lines(goals@.take(i + 1), es.take(i + 1)));
        }
        i = i + 1;
    }
    proof {
        assert(goals@.take(goals.len() as int) =~= goals@);
        assert(es.take(es.len() as int) =~= es);
    }
    let ghost body = texts(lines@);
    push_line(&mut lines, String::from_str(""));
    push_line(&mut lines, String::from_str("══════════════════════════════════════════════════════════════════"));
    let goal_count = decimal_text(goals.len());
    let exec_count = decimal_text(total);
    let closing = cat("Replay complete. ", goal_count.as_str());
    let closing = cat(closing.as_str(), " goal(s), ");
    let closing = cat(closing.as_str(), exec_count.as_str());
    push_line(&mut lines, cat(closing.as_str(), " execution(s) total."));
    proof {
        assert(texts(lines@) =~= replay_lines(*session, goals@, es));
    }
    lines
}

/// A line of the goal lines is a line of the lines of all goals.
proof fn lemma_goals_lines_hold(gs: Seq<Goal>, es: Seq<Seq<ReplayExecution>>, i: int, k: int)
    requires
        gs.len() == es.len(),
        0 <= i < gs.len(),
        0 <= k < goal_lines((i + 1) as nat, gs[i], es[i]).len(),
    ensures
        goals_lines(gs, es).contains(goal_lines((i + 1) as nat, gs[i], es[i])[k]),
    decreases gs.len(),
{
    let n = gs.len() as int;
    let prefix = goals_lines(gs.drop_last(), es.drop_last());
    let last = goal_lines(n as nat, gs.last(), es.last());
    assert(goals_lines(gs, es) == prefix + last);
    if i == n - 1 {
        assert((prefix + last)[prefix.len() + k] == last[k]);
    } else {
        assert(gs.drop_last()[i] == gs[i]);
        assert(es.drop_last()[i] == es[i]);
        lemma_goals_lines_hold(gs.drop_last(), es.drop_last(), i, k);
        let j = choose|j: int| 0 <= j < prefix.len() && prefix[j] == goal_lines((i + 1) as nat, gs[i], es[i])[k];
        assert((prefix + last)[j] == prefix[j]);
    }
}

/// A line of the lines of all goals is a line of the replay.
proof fn lemma_replay_holds_goals_line(s: Session, gs: Seq<Goal>, es: Seq<Seq<ReplayExecution>>, line: Seq<char>)
    requires
        goals_lines(gs, es).contains(line),
    ensures
        replay_lines(s, gs, es).contains(line),
{
    let a = session_lines(s) + goals_heading(gs.len());
    let b = goals_lines(gs, es);
    let c = closing_lines(gs.len(), total_executions(es));
    let j = choose|j: int| 0 <= j < b.len() && b[j] == line;
    assert(replay_lines(s, gs, es) == a + b + c);
    assert((a + b + c)[a.len() + j] == line);
}

/// A replay shows every goal with what it records: its heading carries its
/// number (from 1, in order) and its title; if it was started, a line gives
/// the date and time it was started; if it was completed, a line gives the
/// date and time it was completed; and if it has executions, a line gives
/// their number.
pub proof fn replay_shows_every_goal(s: Session, gs: Seq<Goal>, es: Seq<Seq<ReplayExecution>>, i: int)
    requires
        gs.len() == es.len(),
        0 <= i < gs.len(),
    ensures
        replay_lines(s, gs, es).contains(
            "  Goal #"@ + decimal_form((i + 1) as nat) + ": "@ + gs[i].title@,
        ),
        gs[i].started_at matches Some(t) ==> replay_lines(s, gs, es).contains(
            "  Started:     "@ + instant_format(t.secs, t.nanos, "%Y-%m-%d %H:%M:%S UTC"@),
        ),
        gs[i].completed_at matches Some(t) ==> replay_lines(s, gs, es).contains(
            "  Completed:   "@ + instant_format(t.secs, t.nanos, "%Y-%m-%d %H:%M:%S UTC"@),
        ),
        es[i].len() > 0 ==> replay_lines(s, gs, es).contains(
            "  ┌── TOOL EXECUTIONS ("@ + decimal_form(es[i].len()) + ") ──"@,
        ),
{
    let g = gs[i];
    let number = (i + 1) as nat;
    let lines = goal_lines(number, g, es[i]);
    let head = goal_head_lines(number, g);
    let first = seq![
        ""@,
        "  Goal #"@ + decimal_form(number) + ": "@ + g.title@,
        "  ID:          "@ + uuid_text(g.base.id),
        "  Status:      "@ + g.status.name_spec(),
        "  Priority:    "@ + g.priority.name_spec(),
    ];
    let description = optional_line(
        "  Description: "@,
        match g.description {
            Some(d) => if d@.len() > 0 {
                Some(d@)
            } else {
                None
            },
            None => None,
        },
    );
    let started = optional_line(
        "  Started:     "@,
        match g.started_at {
            Some(t) => Some(stamp(t)),
            None => None,
        },
    );
    let completed = optional_line(
        "  Completed:   "@,
        match g.completed_at {
            Some(t) => Some(stamp(t)),
            None => None,
        },
    );
    assert(head == first + description + started + completed);
    assert(lines == head + executions_block(es[i]));
    assert(lines[1] == head[1]);
    lemma_goals_lines_hold(gs, es, i, 1);
    lemma_replay_holds_goals_line(s, gs, es, lines[1]);
    if let Some(t) = g.started_at {
        let k: int = (first.len() + description.len()) as int;
        assert(head[k] == started[0]);
        assert(lines[k] == head[k]);
        lemma_goals_lines_hold(gs, es, i, k);
        lemma_replay_holds_goals_line(s, gs, es, lines[k]);
    }
    if let Some(t) = g.completed_at {
        let k: int = (first.len() + description.len() + started.len()) as int;
        assert(head[k] == completed[0]);
        assert(lines[k] == head[k]);
        lemma_goals_lines_hold(gs, es, i, k);
        lemma_replay_holds_goals_line(s, gs, es, lines[k]);
    }
    if es[i].len() > 0 {
        let k: int = head.len() + 1int;
        assert(lines[k] == executions_block(es[i])[1]);
        lemma_goals_lines_hold(gs, es, i, k);
        lemma_replay_holds_goals_line(s, gs, es, lines[k]);
    }
}

/// A line of an execution's lines is a line of the lines of all the
/// goal's executions.
proof fn lemma_executions_lines_hold(rs: Seq<ReplayExecution>, j: int, k: int)
    requires
        0 <= j < rs.len(),
        0 <= k < execution_lines(rs[j]).len(),
    ensures
        executions_lines(rs).contains(execution_lines(rs[j])[k]),
    decreases rs.len(),
{
    let n = rs.len() as int;
    let prefix = executions_lines(rs.drop_last());
    let last = execution_lines(rs.last());
    assert(executions_lines(rs) == prefix + last);
    if j == n - 1 {
        assert((prefix + last)[prefix.len() + k] == last[k]);
    } else {
        assert(rs.drop_last()[j] == rs[j]);
        lemma_executions_lines_hold(rs.drop_last(), j, k);
        let w = choose|w: int| 0 <= w < prefix.len() && prefix[w] == execution_lines(rs[j])[k];
        assert((prefix + last)[w] == prefix[w]);
    }
}

/// A line of an execution of goal `i` is a line of the replay.
proof fn lemma_replay_holds_execution_line(
    s: Session,
    gs: Seq<Goal>,
    es: Seq<Seq<ReplayExecution>>,
    i: int,
    j: int,
    k: int,
)
    requires
        gs.len() == es.len(),
        0 <= i < gs.len(),
        0 <= j < es[i].len(),
        0 <= k < execution_lines(es[i][j]).len(),
    ensures
        replay_lines(s, gs, es).contains(execution_lines(es[i][j])[k]),
{
    let rs = es[i];
    let line = execution_lines(rs[j])[k];
    lemma_executions_lines_hold(rs, j, k);
    let inner = executions_lines(rs);
    let w = choose|w: int| 0 <= w < inner.len() && inner[w] == line;
    let opening = seq![""@, "  ┌── TOOL EXECUTIONS ("@ + decimal_form(rs.len()) + ") ──"@];
    let block = executions_block(rs);
    assert(block == opening + inner + seq!["  └───────────────────────────"@]);
    assert(block[2 + w] == line);
    let head = goal_head_lines((i + 1) as nat, gs[i]);
    let lines = goal_lines((i + 1) as nat, gs[i], rs);
    assert(lines == head + block);
    let at: int = head.len() + 2 + w;
    assert(lines[at] == line);
    lemma_goals_lines_hold(gs, es, i, at);
    lemma_replay_holds_goals_line(s, gs, es, line);
}

/// A replay shows every tool execution with what it records: its tool, its
/// status, its input, its output (cut to at most 60 bytes) if it has one,
/// its error if it has one, and its idempotency key if it has one.
pub proof fn replay_shows_every_execution(
    s: Session,
    gs: Seq<Goal>,
    es: Seq<Seq<ReplayExecution>>,
    i: int,
    j: int,
)
    requires
        gs.len() == es.len(),
        0 <= i < gs.len(),
        0 <= j < es[i].len(),
    ensures
        replay_lines(s, gs, es).contains("  │  Tool:      "@ + es[i][j].execution.tool_name@),
        replay_lines(s, gs, es).contains(
            "  │  Status:    "@ + es[i][j].execution.status.name_spec(),
        ),
        replay_lines(s, gs, es).contains("  │  Input:     "@ + es[i][j].input_json@),
        es[i][j].output_json matches Some(o) ==> replay_lines(s, gs, es).contains(
            "  │  Output:    "@ + preview_form(o@, 60),
        ),
        es[i][j].execution.error matches Some(x) ==> replay_lines(s, gs, es).contains(
            "  │  Error:     "@ + x@,
        ),
        es[i][j].execution.idempotency_key matches Some(key) ==> replay_lines(s, gs, es).contains(
            "  │  Idempotency Key: "@ + key@,
        ),
{
    let r = es[i][j];
    let e = r.execution;
    let first = seq![
        "  │"@,
        "  │  Tool:      "@ + e.tool_name@,
        "  │  Status:    "@ + e.status.name_spec(),
        "  │  Input:     "@ + r.input_json@,
    ];
    let output = optional_line(
        "  │  Output:    "@,
        match r.output_json {
            Some(o) => Some(preview_form(o@, OUTPUT_PREVIEW_BYTES as nat)),
            None => None,
        },
    );
    let error = optional_line(
        "  │  Error:     "@,
        match e.error {
            Some(x) => Some(x@),
            None => None,
        },
    );
    let key = optional_line(
        "  │  Idempotency Key: "@,
        match e.idempotency_key {
            Some(k) => Some(k@),
            None => None,
        },
    );
    let lines = execution_lines(r);
    assert(lines == first + output + error + key + seq!["  │  Time:      "@ + clock(e.base.created_at)]);
    assert(lines[1] == first[1]);
    assert(lines[2] == first[2]);
    assert(lines[3] == first[3]);
    lemma_replay_holds_execution_line(s, gs, es, i, j, 1);
    lemma_replay_holds_execution_line(s, gs, es, i, j, 2);
    lemma_replay_holds_execution_line(s, gs, es, i, j, 3);
    if r.output_json is Some {
        assert(lines[4] == output[0]);
        lemma_replay_holds_execution_line(s, gs, es, i, j, 4);
    }
    if e.error is Some {
        let k: int = (4 + output.len()) as int;
        assert(lines[k] == error[0]);
        lemma_replay_holds_execution_line(s, gs, es, i, j, k);
    }
    if e.idempotency_key is Some {
        let k: int = (4 + output.len() + error.len()) as int;
        assert(lines[k] == key[0]);
        lemma_replay_holds_execution_line(s, gs, es, i, j, k);
    }
}

/// A replay opens with the session: its identifier, its user, its status,
/// when it was created and when it was last active, in that order, then
/// the number of goals.
pub proof fn replay_opens_with_the_session(s: Session, gs: Seq<Goal>, es: Seq<Seq<ReplayExecution>>)
    ensures
        replay_lines(s, gs, es)[4] == "Session ID:     "@ + uuid_text(s.base.id),
        replay_lines(s, gs, es)[5] == "User ID:        "@ + uuid_text(s.user_id),
        replay_lines(s, gs, es)[6] == "Status:         "@ + s.status.name_spec(),
        replay_lines(s, gs, es)[7] == "Created:        "@ + instant_format(
            s.base.created_at.secs,
            s.base.created_at.nanos,
            "%Y-%m-%d %H:%M:%S UTC"@,
        ),
        replay_lines(s, gs, es)[8] == "Last Activity:  "@ + instant_format(
            s.last_activity_at.secs,
            s.last_activity_at.nanos,
            "%Y-%m-%d %H:%M:%S UTC"@,
        ),
        replay_lines(s, gs, es)[11] == "│ GOALS ("@ + decimal_form(gs.len()) + ")                                                        │"@,
{
    let a = session_lines(s);
    let b = goals_heading(gs.len());
    let c = goals_lines(gs, es);
    let d = closing_lines(gs.len(), total_executions(es));
    assert(replay_lines(s, gs, es) == a + b + c + d);
    assert(a.len() == 10);
    assert((a + b + c + d)[11] == b[1]);
}

/// The sum, over the goals, of each goal's number of executions.
pub open spec fn execution_count_sum(es: Seq<Seq<ReplayExecution>>) -> int {
    es.map_values(|rs: Seq<ReplayExecution>| rs.len() as int).fold_left(
        0int,
        |total: int, count: int| total + count,
    )
}

proof fn lemma_total_is_sum(es: Seq<Seq<ReplayExecution>>)
    ensures
        total_executions(es) == execution_count_sum(es),
    decreases es.len(),
{
    if es.len() > 0 {
        lemma_total_is_sum(es.drop_last());
        let f = |rs: Seq<ReplayExecution>| rs.len() as int;
        assert(es.map_values(f).drop_last() =~= es.drop_last().map_values(f));
    }
}

/// The replay closes with the number of goals and, as the number of
/// executions, the sum over every goal of its number of executions.
pub proof fn replay_closing_counts_all_executions(s: Session, gs: Seq<Goal>, es: Seq<Seq<ReplayExecution>>)
    requires
        gs.len() == es.len(),
    ensures
        replay_lines(s, gs, es).last() == "Replay complete. "@ + decimal_form(gs.len()) + " goal(s), "@
            + decimal_form(execution_count_sum(es) as nat) + " execution(s) total."@,
{
    lemma_total_is_sum(es);
}

} // verus!
