//! The decisions the repositories take on what the database answers:
//! which row a lookup yields, when an update or delete found nothing, which
//! migrations to run, and how an idempotent create resolves.
use crate::models::tool_execution::ToolExecution;
use crate::persistence::errors::{not_found_text, DatabaseError};
use std::path::PathBuf;
use vstd::prelude::*;

verus! {

/// The first row a lookup returned, or the not-found error
/// `"{kind} {subject} not found"` where it returned none.
pub fn first_or_not_found<T>(rows: Vec<T>, kind: &str, subject: &str) -> (r: Result<T, DatabaseError>)
    ensures
        rows@.len() > 0 ==> r == Ok::<T, DatabaseError>(rows@[0]),
        rows@.len() == 0 ==> (r matches Err(DatabaseError::NotFound(m)) && m@ == not_found_text(
            kind@,
            subject@,
        )),
{
    let mut rows = rows;
    if rows.len() == 0 {
        Err(DatabaseError::not_found(kind, subject))
    } else {
        Ok(rows.remove(0))
    }
}

/// The first row a lookup returned, if any.
pub fn first_row<T>(rows: Vec<T>) -> (r: Option<T>)
    ensures
        rows@.len() > 0 ==> r == Some(rows@[0]),
        rows@.len() == 0 ==> r is None,
{
    let mut rows = rows;
    if rows.len() == 0 {
        None
    } else {
        Some(rows.remove(0))
    }
}

/// The outcome of an update or delete that changed `affected` rows: the
/// not-found error `"{kind} {subject} not found"` where it changed none.
pub fn require_affected(affected: usize, kind: &str, subject: &str) -> (r: Result<(), DatabaseError>)
    ensures
        affected > 0 ==> r is Ok,
        affected == 0 ==> (r matches Err(DatabaseError::NotFound(m)) && m@ == not_found_text(
            kind@,
            subject@,
        )),
{
    if affected == 0 {
        Err(DatabaseError::not_found(kind, subject))
    } else {
        Ok(())
    }
}

/// The schema version recorded last, as the database reports it: the
/// version read, cut to 32 bits, or 0 where no version is recorded.
pub fn schema_version_from(latest: Option<i64>) -> (v: u32)
    ensures
        latest matches Some(x) ==> v == x as u32,
        latest is None ==> v == 0,
{
    match latest {
        Some(x) => x as u32,
        None => 0,
    }
}

/// The versions of the migrations that a database whose highest recorded
/// version is `current` has yet to run, in order.
pub open spec fn pending_versions(current: i64) -> Seq<u32> {
    (if current < 1 {
        seq![1u32]
    } else {
        Seq::<u32>::empty()
    }) + (if current < 2 {
        seq![2u32]
    } else {
        Seq::<u32>::empty()
    })
}

/// The migrations to run, in order, on a database whose highest recorded
/// version is `current`: version 1 (the initial schema) below 1, and
/// version 2 (unique idempotency keys) below 2.
pub fn pending_migrations(current: i64) -> (versions: Vec<u32>)
    ensures
        versions@ == pending_versions(current),
{
    let mut versions: Vec<u32> = Vec::new();
    if current < 1 {
        versions.push(1);
    }
    if current < 2 {
        versions.push(2);
    }
    proof {
        if current < 1 {
            assert(versions@ =~= seq![1u32] + seq![2u32]);
        } else if current < 2 {
            assert(versions@ =~= Seq::<u32>::empty() + seq![2u32]);
        } else {
            assert(versions@ =~= Seq::<u32>::empty() + Seq::<u32>::empty());
        }
    }
    versions
}

/// After the pending migrations of any database have run, its highest
/// recorded version is at least 2, and each migration that ran was above
/// the version before it.
pub proof fn migrations_reach_latest(current: i64, versions: Seq<u32>)
    requires
        versions == pending_versions(current),
    ensures
        current >= 2 || (versions.len() > 0 && versions.last() == 2),
        forall|i: int| 0 <= i < versions.len() ==> versions[i] > current,
        forall|i: int, j: int| 0 <= i < j < versions.len() ==> versions[i] < versions[j],
{
}

/// The SQL `LIKE` pattern that finds a tag in a stored tag list: the tag
/// between double quotes, anywhere in the text (`%"tag"%`).
pub fn tag_pattern(tag: &str) -> (p: String)
    ensures
        p@ == "%\""@ + tag@ + "\"%"@,
{
    let mut p = String::from_str("%\"");
    p.append(tag);
    p.append("\"%");
    p
}

/// The outside path type of the database file.
#[verifier::external_type_specification]
#[verifier::external_body]
pub struct ExPathBuf(PathBuf);

/// A path from its text: calls std's `PathBuf::from`.
///
/// Nothing is claimed of the path; it only carries the text to the
/// filesystem calls.
#[verifier::external_body]
fn path_from(text: &str) -> PathBuf {
    PathBuf::from(text)
}

/// Database configuration.
#[derive(Debug)]
pub struct DatabaseConfig {
    pub path: PathBuf,
    pub wal_mode: bool,
    pub busy_timeout_ms: u64,
}

/// The name of the database file when none is given.
pub const DEFAULT_DATABASE_FILE: &'static str = "openclaw_state.db";

impl Default for DatabaseConfig {
    /// The file `openclaw_state.db`, in write-ahead-log mode, waiting up to
    /// five seconds on a busy database.
    fn default() -> (c: DatabaseConfig)
        ensures
            c.wal_mode,
            c.busy_timeout_ms == 5000,
    {
        DatabaseConfig {
            path: path_from(DEFAULT_DATABASE_FILE),
            wal_mode: true,
            busy_timeout_ms: 5000,
        }
    }
}

/// Result of idempotent create operation.
#[derive(Debug)]
pub enum IdempotentCreateResult {
    /// New execution was created.
    Created(ToolExecution),
    /// Existing execution with same idempotency_key was found.
    Duplicate(ToolExecution),
}

impl IdempotentCreateResult {
    /// The execution the result carries.
    pub open spec fn execution_spec(self) -> ToolExecution {
        match self {
            IdempotentCreateResult::Created(e) => e,
            IdempotentCreateResult::Duplicate(e) => e,
        }
    }

    /// The execution the result carries: the one created, or the one
    /// already recorded under the key.
    pub fn into_execution(self) -> (e: ToolExecution)
        ensures
            e == self.execution_spec(),
    {
        match self {
            IdempotentCreateResult::Created(e) => e,
            IdempotentCreateResult::Duplicate(e) => e,
        }
    }

    /// Whether the execution was created, so that its row must be inserted.
    pub fn is_created(&self) -> (b: bool)
        ensures
            b == (*self is Created),
    {
        matches!(self, IdempotentCreateResult::Created(_))
    }
}

/// How an idempotent create resolves, given what the lookup by key found.
pub open spec fn idempotent_resolution(
    existing: Option<ToolExecution>,
    execution: ToolExecution,
    r: IdempotentCreateResult,
) -> bool {
    match existing {
        Some(x) => r == IdempotentCreateResult::Duplicate(x),
        None => r == IdempotentCreateResult::Created(execution),
    }
}

/// Resolves an idempotent create: the execution already recorded under the
/// key, if the lookup found one, else the new execution, which the caller
/// then inserts within the same transaction.
pub fn resolve_idempotent(existing: Option<ToolExecution>, execution: ToolExecution) -> (r:
    IdempotentCreateResult)
    ensures
        idempotent_resolution(existing, execution, r),
{
    match existing {
        Some(x) => IdempotentCreateResult::Duplicate(x),
        None => IdempotentCreateResult::Created(execution),
    }
}

/// An execution is recorded under `key`.
pub open spec fn keyed(e: ToolExecution, key: Seq<char>) -> bool {
    e.idempotency_key matches Some(k) && k@ == key
}

/// No two executions of a table share an idempotency key (the table's
/// UNIQUE constraint).
pub open spec fn unique_keys(table: Seq<ToolExecution>) -> bool {
    forall|i: int, j: int, key: Seq<char>|
        0 <= i < table.len() && 0 <= j < table.len() && #[trigger] keyed(table[i], key)
            && #[trigger] keyed(table[j], key) ==> i == j
}

/// What a lookup by key finds in a table: the execution recorded under the
/// key, if there is one.
pub open spec fn lookup_by_key(table: Seq<ToolExecution>, key: Seq<char>) -> Option<ToolExecution> {
    if exists|i: int| 0 <= i < table.len() && #[trigger] keyed(table[i], key) {
        Some(table[choose|i: int| 0 <= i < table.len() && #[trigger] keyed(table[i], key)])
    } else {
        None
    }
}

/// The table after an idempotent create: with the new execution inserted if
/// it was created, unchanged otherwise.
pub open spec fn table_after(table: Seq<ToolExecution>, r: IdempotentCreateResult) -> Seq<
    ToolExecution,
> {
    match r {
        IdempotentCreateResult::Created(e) => table.push(e),
        IdempotentCreateResult::Duplicate(_) => table,
    }
}

/// Idempotency: two creates under the same key, the second against the
/// table the first left, give the same execution; the second is reported
/// as a duplicate and leaves the table as the first left it; the table
/// keeps one execution per key; and both results carry the key.
pub proof fn idempotent_create_twice(
    table: Seq<ToolExecution>,
    key: Seq<char>,
    first: ToolExecution,
    r1: IdempotentCreateResult,
    second: ToolExecution,
    r2: IdempotentCreateResult,
)
    requires
        unique_keys(table),
        keyed(first, key),
        keyed(second, key),
        idempotent_resolution(lookup_by_key(table, key), first, r1),
        idempotent_resolution(lookup_by_key(table_after(table, r1), key), second, r2),
    ensures
        unique_keys(table_after(table, r1)),
        r2 is Duplicate,
        r2.execution_spec() == r1.execution_spec(),
        table_after(table_after(table, r1), r2) == table_after(table, r1),
        keyed(r1.execution_spec(), key),
        keyed(r2.execution_spec(), key),
{
    let t1 = table_after(table, r1);
    if exists|i: int| 0 <= i < table.len() && #[trigger] keyed(table[i], key) {
        let i = choose|i: int| 0 <= i < table.len() && #[trigger] keyed(table[i], key);
        assert(r1 == IdempotentCreateResult::Duplicate(table[i]));
        assert(t1 == table);
        assert(lookup_by_key(t1, key) == Some(table[i]));
    } else {
        assert(r1 == IdempotentCreateResult::Created(first));
        assert(t1 == table.push(first));
        let n = table.len() as int;
        assert(keyed(t1[n], key));
        assert forall|i: int, j: int, k: Seq<char>|
            0 <= i < t1.len() && 0 <= j < t1.len() && #[trigger] keyed(t1[i], k) && #[trigger] keyed(
                t1[j],
                k,
            ) implies i == j by {
            if i < n && j < n {
                assert(keyed(table[i], k) && keyed(table[j], k));
            } else if i < n {
                assert(j == n);
                assert(k == key);
                assert(keyed(table[i], key));
            } else if j < n {
                assert(i == n);
                assert(k == key);
                assert(keyed(table[j], key));
            }
        }
        let w = choose|i: int| 0 <= i < t1.len() && #[trigger] keyed(t1[i], key);
        assert(w == n) by {
            if w < n {
                assert(keyed(table[w], key));
            }
        }
    }
}

/// Every execution that an idempotent create gives back carries the key it
/// was asked under.
pub proof fn idempotent_result_carries_key(
    table: Seq<ToolExecution>,
    key: Seq<char>,
    execution: ToolExecution,
    r: IdempotentCreateResult,
)
    requires
        keyed(execution, key),
        idempotent_resolution(lookup_by_key(table, key), execution, r),
    ensures
        keyed(r.execution_spec(), key),
{
}

/// The table after a run of idempotent creates, each against the table
/// that the ones before it left.
pub open spec fn table_after_all(table: Seq<ToolExecution>, results: Seq<IdempotentCreateResult>) -> Seq<
    ToolExecution,
>
    decreases results.len(),
{
    if results.len() == 0 {
        table
    } else {
        table_after(table_after_all(table, results.drop_last()), results.last())
    }
}

/// The first `m` creates of a run under distinct keys, none of them in the
/// table, have each created, and appended their executions in order.
proof fn lemma_fresh_keys_prefix(
    table: Seq<ToolExecution>,
    keys: Seq<Seq<char>>,
    execs: Seq<ToolExecution>,
    results: Seq<IdempotentCreateResult>,
    m: int,
)
    requires
        unique_keys(table),
        keys.len() == execs.len(),
        execs.len() == results.len(),
        0 <= m <= results.len(),
        forall|i: int, j: int| 0 <= i < j < keys.len() ==> keys[i] != keys[j],
        forall|i: int| 0 <= i < execs.len() ==> keyed(#[trigger] execs[i], keys[i]),
        forall|i: int, k: int|
            0 <= i < keys.len() && 0 <= k < table.len() ==> !keyed(#[trigger] table[k], #[trigger] keys[i]),
        forall|i: int|
            0 <= i < results.len() ==> idempotent_resolution(
                lookup_by_key(table_after_all(table, results.take(i)), keys[i]),
                execs[i],
                #[trigger] results[i],
            ),
    ensures
        table_after_all(table, results.take(m)) == table + execs.take(m),
        unique_keys(table + execs.take(m)),
        forall|i: int| 0 <= i < m ==> #[trigger] results[i] == IdempotentCreateResult::Created(execs[i]),
    decreases m,
{
    if m == 0 {
        assert(results.take(0) =~= Seq::<IdempotentCreateResult>::empty());
        assert(table + execs.take(0) =~= table);
    } else {
        let p = m - 1;
        lemma_fresh_keys_prefix(table, keys, execs, results, p);
        let t = table + execs.take(p);
        let key = keys[p];
        assert(results.take(m).drop_last() =~= results.take(p));
        assert(results.take(m).last() == results[p]);
        assert forall|k: int| 0 <= k < t.len() implies !keyed(#[trigger] t[k], key) by {
            if k < table.len() {
                assert(t[k] == table[k]);
            } else {
                let i = k - table.len();
                assert(t[k] == execs[i]);
                assert(keyed(execs[i], keys[i]));
                assert(keys[i] != key);
            }
        }
        assert(lookup_by_key(t, key) is None);
        assert(results[p] == IdempotentCreateResult::Created(execs[p]));
        let t2 = t.push(execs[p]);
        assert(t2 =~= table + execs.take(m));
        assert forall|i: int, j: int, k: Seq<char>|
            0 <= i < t2.len() && 0 <= j < t2.len() && #[trigger] keyed(t2[i], k) && #[trigger] keyed(
                t2[j],
                k,
            ) implies i == j by {
            let n = t.len() as int;
            if i < n && j < n {
                assert(keyed(t[i], k) && keyed(t[j], k));
            } else if i < n {
                assert(keyed(execs[p], key));
                assert(keyed(t[i], key));
            } else if j < n {
                assert(keyed(execs[p], key));
                assert(keyed(t[j], key));
            }
        }
    }
}

/// Creates under distinct keys that the table does not hold, each against
/// the table the ones before it left, all create: every result carries its
/// new execution, the table gains exactly those executions, in order, and
/// still holds one execution per key.
pub proof fn distinct_fresh_keys_all_create(
    table: Seq<ToolExecution>,
    keys: Seq<Seq<char>>,
    execs: Seq<ToolExecution>,
    results: Seq<IdempotentCreateResult>,
)
    requires
        unique_keys(table),
        keys.len() == execs.len(),
        execs.len() == results.len(),
        forall|i: int, j: int| 0 <= i < j < keys.len() ==> keys[i] != keys[j],
        forall|i: int| 0 <= i < execs.len() ==> keyed(#[trigger] execs[i], keys[i]),
        forall|i: int, k: int|
            0 <= i < keys.len() && 0 <= k < table.len() ==> !keyed(#[trigger] table[k], #[trigger] keys[i]),
        forall|i: int|
            0 <= i < results.len() ==> idempotent_resolution(
                lookup_by_key(table_after_all(table, results.take(i)), keys[i]),
                execs[i],
                #[trigger] results[i],
            ),
    ensures
        forall|i: int|
            0 <= i < results.len() ==> #[trigger] results[i] == IdempotentCreateResult::Created(execs[i]),
        table_after_all(table, results) == table + execs,
        table_after_all(table, results).len() == table.len() + results.len(),
        unique_keys(table + execs),
{
    lemma_fresh_keys_prefix(table, keys, execs, results, results.len() as int);
    assert(results.take(results.len() as int) =~= results);
    assert(execs.take(execs.len() as int) =~= execs);
}

/// Running the migrations again runs nothing: after the pending
/// migrations of any database have run, its highest recorded version is at
/// least 2, and no database at version 2 or above has any pending.
pub proof fn migrations_run_once(current: i64)
    ensures
        forall|v: i64| v >= 2 ==> #[trigger] pending_versions(v).len() == 0,
        pending_versions(if current >= 2 {
            current
        } else {
            2
        }).len() == 0,
{
}

} // verus!
