use openclaw_state_engine::json::{JsonNumber, JsonValue};
use openclaw_state_engine::models::channel::{Channel, ChannelQuery};
use openclaw_state_engine::models::entity::{Entity, EntityBase, StateVersion, CURRENT_SCHEMA_VERSION};
use openclaw_state_engine::models::goal::Goal;
use openclaw_state_engine::models::memory::{Memory, MemoryQuery};
use openclaw_state_engine::models::session::Session;
use openclaw_state_engine::models::status::{
    ChannelStatus, ChannelType, GoalPriority, GoalStatus, MemoryImportance, MemoryType, SessionStatus,
    ToolStatus,
};
use openclaw_state_engine::models::tool_execution::ToolExecution;
use openclaw_state_engine::models::user::User;
use openclaw_state_engine::time::Timestamp;

fn is_empty_object(v: &JsonValue) -> bool {
    matches!(v, JsonValue::Object(m) if m.is_empty())
}

#[test]
fn entity_base_new_is_fresh() {
    let a = EntityBase::new();
    let b = EntityBase::default();
    assert_ne!(a.id, b.id);
    assert_eq!((a.created_at.secs, a.created_at.nanos), (a.updated_at.secs, a.updated_at.nanos));
    let c = EntityBase::with_id(42);
    assert_eq!(c.id, 42);
    assert_eq!(CURRENT_SCHEMA_VERSION, 1);
    assert_eq!(StateVersion::new(7).version, 7);
}

#[test]
fn user_new_and_builders() {
    let u = User::new("agent".to_string()).with_display_name("Agent".to_string()).with_email("a@b.c".to_string());
    assert_eq!(u.username, "agent");
    assert_eq!(u.display_name.as_deref(), Some("Agent"));
    assert_eq!(u.email.as_deref(), Some("a@b.c"));
    assert!(u.active);
    assert!(is_empty_object(&u.metadata));
    assert_eq!(User::entity_type(), "user");
    assert_eq!(u.id(), u.base.id);
}

#[test]
fn session_lifecycle() {
    let mut s = Session::new(5).with_channel(9);
    assert_eq!(s.user_id, 5);
    assert_eq!(s.channel_id, Some(9));
    assert_eq!(s.status, SessionStatus::Active);
    s.pause();
    assert_eq!(s.status, SessionStatus::Paused);
    s.complete();
    assert_eq!(s.status, SessionStatus::Completed);
    s.fail();
    assert_eq!(s.status, SessionStatus::Failed);
    s.update_activity();
    assert_eq!(s.status, SessionStatus::Failed);
    assert_eq!(Session::entity_type(), "session");
    assert_eq!(SessionStatus::default(), SessionStatus::Active);
}

#[test]
fn goal_lifecycle() {
    let mut g = Goal::new(1, 2, "Send email".to_string()).with_description("d".to_string()).with_parent(3);
    assert_eq!(g.status, GoalStatus::Pending);
    assert_eq!(g.priority, GoalPriority::Medium);
    assert_eq!(g.parent_goal_id, Some(3));
    assert_eq!(g.description.as_deref(), Some("d"));
    assert!(g.started_at.is_none() && g.completed_at.is_none() && g.result.is_none());
    g.start();
    assert_eq!(g.status, GoalStatus::InProgress);
    assert!(g.started_at.is_some());
    g.complete(JsonValue::Bool(true));
    assert_eq!(g.status, GoalStatus::Completed);
    assert!(matches!(g.result, Some(JsonValue::Bool(true))));
    assert!(g.completed_at.is_some());
    let mut h = Goal::new(1, 2, "x".to_string());
    h.fail();
    assert_eq!(h.status, GoalStatus::Failed);
    assert!(h.completed_at.is_some());
    let mut k = Goal::new(1, 2, "y".to_string());
    k.cancel();
    assert_eq!(k.status, GoalStatus::Cancelled);
    assert_eq!(GoalStatus::default(), GoalStatus::Pending);
    assert_eq!(GoalPriority::default(), GoalPriority::Medium);
}

#[test]
fn tool_execution_lifecycle() {
    let input = JsonValue::Number(JsonNumber::PosInt(3));
    let mut e = ToolExecution::new(1, 2, 3, "search".to_string(), input).with_idempotency_key("k".to_string());
    assert_eq!((e.user_id, e.session_id, e.goal_id), (1, 2, 3));
    assert_eq!(e.status, ToolStatus::Pending);
    assert_eq!(e.idempotency_key.as_deref(), Some("k"));
    e.start();
    assert_eq!(e.status, ToolStatus::Running);
    assert!(e.started_at.is_some());
    e.fail("boom".to_string());
    assert_eq!(e.status, ToolStatus::Failed);
    assert_eq!(e.error.as_deref(), Some("boom"));
    e.complete(JsonValue::Null);
    assert_eq!(e.status, ToolStatus::Completed);
    assert!(matches!(e.output, Some(JsonValue::Null)));
    e.cancel();
    assert_eq!(e.status, ToolStatus::Cancelled);
    assert_eq!(ToolExecution::entity_type(), "tool_execution");
    assert_eq!(ToolStatus::default(), ToolStatus::Pending);
}

#[test]
fn idempotency_key_for_a_day_has_the_documented_shape() {
    let input = JsonValue::String("value".to_string());
    let k1 = ToolExecution::idempotency_key_for_day(1, 2, 3, "any_tool", &input, "20240315");
    let k2 = ToolExecution::idempotency_key_for_day(1, 2, 3, "any_tool", &input, "20240315");
    assert_eq!(k1, k2);
    assert!(k1.starts_with("auto:any_tool:20240315:"));
    let hex = &k1["auto:any_tool:20240315:".len()..];
    assert!(!hex.is_empty());
    assert!(hex.chars().all(|c| c.is_ascii_hexdigit() && !c.is_ascii_uppercase()));
    assert!(hex == "0" || !hex.starts_with('0'));
    let other = ToolExecution::idempotency_key_for_day(1, 2, 4, "any_tool", &input, "20240315");
    assert_ne!(k1, other);
}

#[test]
fn generated_key_is_today_s_key() {
    let input = JsonValue::Null;
    let key = ToolExecution::generate_idempotency_key(1, 2, 3, "t", &input);
    let today = chrono::Utc::now().format("%Y%m%d").to_string();
    let expected = ToolExecution::idempotency_key_for_day(1, 2, 3, "t", &input, &today);
    assert_eq!(key, expected);
}

#[test]
fn memory_builders_and_promotion() {
    let t = Timestamp { secs: 100, nanos: 0 };
    let mut m = Memory::new_short_term(1, "fact".to_string())
        .with_importance(MemoryImportance::High)
        .with_tags(vec!["a".to_string()])
        .with_expiry(t);
    assert_eq!(m.memory_type, MemoryType::ShortTerm);
    assert_eq!(m.importance, MemoryImportance::High);
    assert_eq!(m.tags, vec!["a".to_string()]);
    assert_eq!(m.expires_at.map(|x| x.secs), Some(100));
    m.promote_to_long_term();
    assert_eq!(m.memory_type, MemoryType::LongTerm);
    let l = Memory::new_long_term(1, "c".to_string());
    assert_eq!(l.memory_type, MemoryType::LongTerm);
    assert_eq!(l.importance, MemoryImportance::Medium);
    assert!(l.embedding.is_none() && l.tags.is_empty());
    let q = MemoryQuery::default();
    assert!(q.user_id.is_none() && q.limit.is_none() && q.offset.is_none());
}

#[test]
fn channel_builders_and_states() {
    let mut c = Channel::new(1, ChannelType::Email, "mail".to_string(), "me@x".to_string())
        .with_metadata(JsonValue::Bool(true))
        .with_config(JsonValue::Null);
    assert_eq!(c.status, ChannelStatus::Active);
    assert!(matches!(c.metadata, JsonValue::Bool(true)));
    assert!(matches!(c.config, JsonValue::Null));
    c.update_last_message();
    assert!(c.last_message_at.is_some());
    c.pause();
    assert_eq!(c.status, ChannelStatus::Paused);
    c.deactivate();
    assert_eq!(c.status, ChannelStatus::Inactive);
    let q = ChannelQuery::default();
    assert!(q.user_id.is_none() && q.channel_type.is_none() && q.status.is_none());
    assert_eq!(ChannelType::default(), ChannelType::Chat);
    assert_eq!(ChannelStatus::default(), ChannelStatus::Active);
    assert_eq!(Channel::entity_type(), "channel");
}

#[test]
fn status_codes_as_stored() {
    assert_eq!(GoalStatus::InProgress.code(), "in_progress");
    assert_eq!(GoalStatus::from_code(GoalStatus::InProgress.code()), GoalStatus::InProgress);
    assert_eq!(GoalStatus::from_code("inprogress"), GoalStatus::Pending);
    assert_eq!(MemoryType::LongTerm.code(), "long_term");
    assert_eq!(MemoryType::ShortTerm.code(), "short_term");
    assert_eq!(MemoryType::from_code(MemoryType::LongTerm.code()), MemoryType::LongTerm);
    assert_eq!(MemoryType::from_code(MemoryType::ShortTerm.code()), MemoryType::ShortTerm);
    assert_eq!(MemoryType::from_code("longterm"), MemoryType::ShortTerm);
    assert_eq!(SessionStatus::from_code(SessionStatus::Abandoned.code()), SessionStatus::Abandoned);
    assert_eq!(SessionStatus::from_code("bogus"), SessionStatus::Active);
    assert_eq!(ToolStatus::from_code(ToolStatus::Cancelled.code()), ToolStatus::Cancelled);
    assert_eq!(ChannelType::from_code(ChannelType::Webhook.code()), ChannelType::Webhook);
    assert_eq!(ChannelStatus::from_code("inactive"), ChannelStatus::Inactive);
    assert_eq!(GoalPriority::from_code("critical"), GoalPriority::Critical);
    assert_eq!(MemoryImportance::from_code("low"), MemoryImportance::Low);
    assert_eq!(MemoryImportance::default(), MemoryImportance::Medium);
}
