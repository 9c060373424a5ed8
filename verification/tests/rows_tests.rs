use openclaw_state_engine::json::{JsonNumber, JsonValue};
use openclaw_state_engine::models::channel::Channel;
use openclaw_state_engine::models::goal::Goal;
use openclaw_state_engine::models::memory::Memory;
use openclaw_state_engine::models::session::Session;
use openclaw_state_engine::models::status::{
    ChannelType, GoalPriority, GoalStatus, MemoryImportance, MemoryType, SessionStatus, ToolStatus,
};
use openclaw_state_engine::models::tool_execution::ToolExecution;
use openclaw_state_engine::models::user::User;
use openclaw_state_engine::persistence::rows::{
    decode_channel, decode_execution, decode_goal, decode_memory, decode_session, decode_user,
    encode_channel, encode_execution, encode_goal, encode_memory, encode_session, encode_user, UserRow,
};
use openclaw_state_engine::time::Timestamp;

fn same_time(a: Timestamp, b: Timestamp) -> bool {
    a.secs == b.secs && a.nanos == b.nanos
}

#[test]
fn user_round_trip() {
    let u = User::new("agent".to_string()).with_email("e@x".to_string());
    let (id, created) = (u.base.id, u.base.created_at);
    let row = encode_user(u);
    assert_eq!(row.active, 1);
    assert_eq!(row.id.len(), 36);
    let back = decode_user(row).unwrap();
    assert_eq!(back.base.id, id);
    assert!(same_time(back.base.created_at, created));
    assert_eq!(back.username, "agent");
    assert_eq!(back.email.as_deref(), Some("e@x"));
    assert!(back.display_name.is_none());
    assert!(back.active);
}

#[test]
fn unreadable_user_rows() {
    let row = UserRow {
        id: "nope".to_string(),
        username: "u".to_string(),
        display_name: None,
        email: None,
        metadata: None,
        active: 0,
        created_at: "x".to_string(),
        updated_at: "x".to_string(),
    };
    assert!(decode_user(row).is_none());
    let row = UserRow {
        id: "67e55044-10b1-426f-9247-bb680e5fe0c8".to_string(),
        username: "u".to_string(),
        display_name: None,
        email: None,
        metadata: None,
        active: 0,
        created_at: "not a time".to_string(),
        updated_at: "2024-03-15T00:00:00Z".to_string(),
    };
    let u = decode_user(row).unwrap();
    assert!(!u.active);
    assert!(matches!(u.metadata, JsonValue::Object(ref m) if m.is_empty()));
    assert_eq!(u.base.updated_at.secs, 1_710_460_800);
    assert!(u.base.created_at.secs > 1_700_000_000);
}

#[test]
fn session_round_trip() {
    let mut s = Session::new(11).with_channel(12);
    s.pause();
    let id = s.base.id;
    let row = encode_session(s);
    assert_eq!(row.status, "paused");
    let back = decode_session(row).unwrap();
    assert_eq!(back.base.id, id);
    assert_eq!(back.user_id, 11);
    assert_eq!(back.channel_id, Some(12));
    assert_eq!(back.status, SessionStatus::Paused);
}

#[test]
fn goal_round_trip_and_in_progress_reads_pending() {
    let mut g = Goal::new(1, 2, "title".to_string()).with_parent(3);
    g.complete(JsonValue::Number(JsonNumber::PosInt(4)));
    let done_at = g.completed_at.unwrap();
    let row = encode_goal(g);
    assert_eq!(row.status, "completed");
    assert_eq!(row.priority, "medium");
    let back = decode_goal(row).unwrap();
    assert_eq!(back.status, GoalStatus::Completed);
    assert_eq!(back.priority, GoalPriority::Medium);
    assert_eq!(back.parent_goal_id, Some(3));
    assert!(same_time(back.completed_at.unwrap(), done_at));
    assert!(back.result.unwrap().equals(&JsonValue::Number(JsonNumber::PosInt(4))));

    let mut started = Goal::new(1, 2, "t".to_string());
    started.start();
    let row = encode_goal(started);
    assert_eq!(row.status, "in_progress");
    let back = decode_goal(row).unwrap();
    assert_eq!(back.status, GoalStatus::InProgress);
    assert!(back.started_at.is_some());
}

#[test]
fn execution_round_trip() {
    let mut e = ToolExecution::new(1, 2, 3, "search".to_string(), JsonValue::Bool(true)).with_idempotency_key("k1".to_string());
    e.fail("err".to_string());
    let id = e.base.id;
    let back = decode_execution(encode_execution(e)).unwrap();
    assert_eq!(back.base.id, id);
    assert_eq!((back.user_id, back.session_id, back.goal_id), (1, 2, 3));
    assert_eq!(back.status, ToolStatus::Failed);
    assert_eq!(back.error.as_deref(), Some("err"));
    assert_eq!(back.idempotency_key.as_deref(), Some("k1"));
    assert!(back.tool_input.equals(&JsonValue::Bool(true)));
    assert!(back.completed_at.is_some() && back.started_at.is_none());
}

#[test]
fn long_term_memory_round_trip() {
    let m = Memory::new_long_term(5, "fact".to_string())
        .with_importance(MemoryImportance::Critical)
        .with_tags(vec!["x".to_string(), "y".to_string()]);
    let row = encode_memory(m);
    assert_eq!(row.memory_type, "long_term");
    assert_eq!(row.importance, "critical");
    assert_eq!(row.tags, "[\"x\",\"y\"]");
    let back = decode_memory(row).unwrap();
    assert_eq!(back.memory_type, MemoryType::LongTerm);
    assert_eq!(back.importance, MemoryImportance::Critical);
    assert_eq!(back.tags, vec!["x".to_string(), "y".to_string()]);
    assert_eq!(back.content, "fact");
}

#[test]
fn memory_with_unreadable_tags_has_none() {
    let mut row = encode_memory(Memory::new_short_term(5, "c".to_string()));
    assert_eq!(row.tags, "[]");
    row.tags = "not json".to_string();
    row.expires_at = Some("garbage".to_string());
    let back = decode_memory(row).unwrap();
    assert!(back.tags.is_empty());
    assert!(back.expires_at.is_none());
}

#[test]
fn channel_round_trip() {
    let mut c = Channel::new(9, ChannelType::Calendar, "cal".to_string(), "id-1".to_string());
    c.update_last_message();
    c.deactivate();
    let row = encode_channel(c);
    assert_eq!(row.channel_type, "calendar");
    assert_eq!(row.status, "inactive");
    let back = decode_channel(row).unwrap();
    assert_eq!(back.channel_type, ChannelType::Calendar);
    assert_eq!(back.channel_identifier, "id-1");
    assert!(back.last_message_at.is_some());
}

#[test]
fn unknown_codes_read_as_defaults() {
    let mut row = encode_channel(Channel::new(9, ChannelType::Voice, "v".to_string(), "i".to_string()));
    row.channel_type = "fax".to_string();
    row.status = "??".to_string();
    let back = decode_channel(row).unwrap();
    assert_eq!(back.channel_type, ChannelType::Chat);
    assert_eq!(back.status, openclaw_state_engine::models::status::ChannelStatus::Active);
}

#[test]
fn tags_with_quotes_and_unicode_round_trip() {
    let tags = vec!["a \"quoted\" tag".to_string(), "ünï\\cödé\n".to_string()];
    let m = Memory::new_short_term(5, "c".to_string()).with_tags(tags.clone());
    let back = decode_memory(encode_memory(m)).unwrap();
    assert_eq!(back.tags, tags);
    assert_eq!(back.memory_type, MemoryType::ShortTerm);
}
