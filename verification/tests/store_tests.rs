use openclaw_state_engine::json::JsonValue;
use openclaw_state_engine::models::tool_execution::ToolExecution;
use openclaw_state_engine::persistence::errors::{DatabaseError, MigrationError};
use openclaw_state_engine::persistence::store::{
    first_or_not_found, first_row, pending_migrations, require_affected, resolve_idempotent,
    schema_version_from, DatabaseConfig, IdempotentCreateResult,
};
use openclaw_state_engine::concurrency::{AtomicUpdate, CompareAndSwap};

fn execution(key: &str) -> ToolExecution {
    ToolExecution::new(1, 2, 3, "tool".to_string(), JsonValue::Null).with_idempotency_key(key.to_string())
}

#[test]
fn first_or_not_found_gives_the_first_row() {
    assert_eq!(first_or_not_found(vec![7, 8], "User", "x").unwrap(), 7);
    match first_or_not_found(Vec::<i32>::new(), "User", "abc") {
        Err(DatabaseError::NotFound(m)) => assert_eq!(m, "User abc not found"),
        other => panic!("unexpected {:?}", other),
    }
    assert_eq!(first_row(vec!["a", "b"]), Some("a"));
    assert_eq!(first_row(Vec::<u8>::new()), None);
}

#[test]
fn update_that_changed_nothing_is_not_found() {
    assert!(require_affected(1, "Goal", "g").is_ok());
    match require_affected(0, "Goal", "g") {
        Err(DatabaseError::NotFound(m)) => assert_eq!(m, "Goal g not found"),
        other => panic!("unexpected {:?}", other),
    }
}

#[test]
fn schema_versions() {
    assert_eq!(schema_version_from(None), 0);
    assert_eq!(schema_version_from(Some(2)), 2);
    assert_eq!(schema_version_from(Some(-1)), u32::MAX);
    assert_eq!(pending_migrations(0), vec![1, 2]);
    assert_eq!(pending_migrations(1), vec![2]);
    assert_eq!(pending_migrations(2), Vec::<u32>::new());
    assert_eq!(pending_migrations(-5), vec![1, 2]);
}

#[test]
fn idempotent_create_twice_returns_the_first() {
    let mut table: Vec<ToolExecution> = Vec::new();
    let first = execution("email-user123-welcome");
    let first_id = first.base.id;
    let lookup = |t: &Vec<ToolExecution>, key: &str| {
        t.iter().position(|e| e.idempotency_key.as_deref() == Some(key))
    };
    let r1 = resolve_idempotent(None, first);
    assert!(r1.is_created());
    table.push(r1.into_execution());
    let second = execution("email-user123-welcome");
    assert_ne!(second.base.id, first_id);
    let found = lookup(&table, "email-user123-welcome").map(|i| table.remove(i));
    assert!(found.is_some());
    let r2 = resolve_idempotent(found, second);
    assert!(!r2.is_created());
    assert!(matches!(r2, IdempotentCreateResult::Duplicate(_)));
    assert_eq!(r2.into_execution().base.id, first_id);
}

#[test]
fn database_errors_have_their_messages() {
    assert_eq!(DatabaseError::NotFound("x".to_string()).message(), "Not found: x");
    assert_eq!(DatabaseError::QueryError("q".to_string()).message(), "Database query error: q");
    assert_eq!(DatabaseError::ConnectionError("c".to_string()).message(), "Failed to connect to database: c");
    assert_eq!(DatabaseError::TransactionError("t".to_string()).message(), "Database transaction error: t");
    assert_eq!(DatabaseError::IoError("i".to_string()).message(), "I/O error: i");
    assert_eq!(DatabaseError::SerializationError("s".to_string()).message(), "Serialization error: s");
    assert_eq!(DatabaseError::ConstraintError("k".to_string()).message(), "Constraint violation: k");
    let m: DatabaseError = MigrationError::Failed("f".to_string()).into();
    assert_eq!(m.message(), "Migration error: Migration failed: f");
    assert_eq!(MigrationError::DatabaseError("d".to_string()).message(), "Database error: d");
}

#[test]
fn driver_failures_map_to_errors() {
    match DatabaseError::from_driver(true, "ignored".to_string()) {
        DatabaseError::NotFound(m) => assert_eq!(m, "No rows returned"),
        other => panic!("unexpected {:?}", other),
    }
    match DatabaseError::from_driver(false, "disk I/O error".to_string()) {
        DatabaseError::QueryError(m) => assert_eq!(m, "disk I/O error"),
        other => panic!("unexpected {:?}", other),
    }
}

#[test]
fn database_config_default() {
    let c = DatabaseConfig::default();
    assert_eq!(c.path, std::path::PathBuf::from("openclaw_state.db"));
    assert!(c.wal_mode);
    assert_eq!(c.busy_timeout_ms, 5000);
}

#[test]
fn compare_and_swap() {
    let cas = CompareAndSwap::new(Some(5u32), 6u32);
    assert!(cas.execute(&5));
    assert!(!cas.execute(&4));
    let any = CompareAndSwap::new(None, 1u32);
    assert!(any.execute(&99));
    let upd = AtomicUpdate { previous: Some(1), current: 2 };
    assert_eq!(upd.current, 2);
}

#[test]
fn distinct_fresh_keys_each_create() {
    let mut table: Vec<ToolExecution> = Vec::new();
    let mut ids = Vec::new();
    for i in 0..10 {
        let key = format!("k{}", i);
        let found = table.iter().position(|e| e.idempotency_key.as_deref() == Some(key.as_str()));
        assert!(found.is_none());
        let r = resolve_idempotent(None, execution(&key));
        assert!(r.is_created());
        let e = r.into_execution();
        assert_eq!(e.idempotency_key.as_deref(), Some(key.as_str()));
        ids.push(e.base.id);
        table.push(e);
    }
    assert_eq!(table.len(), 10);
    ids.sort();
    ids.dedup();
    assert_eq!(ids.len(), 10);
}
