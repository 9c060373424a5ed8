use openclaw_state_engine::api::{
    memory_list_limit, new_goal, new_idempotent_execution, new_memory, new_session, new_user,
    request_idempotency_key, DEFAULT_MEMORY_LIST_LIMIT,
};
use openclaw_state_engine::json::JsonValue;
use openclaw_state_engine::models::status::{MemoryImportance, MemoryType, ToolStatus};
use openclaw_state_engine::models::tool_execution::ToolExecution;

#[test]
fn create_user_defaults_missing_names_to_empty() {
    let u = new_user("a".to_string(), None, Some("e".to_string()));
    assert_eq!(u.display_name.as_deref(), Some(""));
    assert_eq!(u.email.as_deref(), Some("e"));
    assert!(u.active);
}

#[test]
fn create_session_on_an_optional_channel() {
    assert_eq!(new_session(1, Some(2)).channel_id, Some(2));
    assert_eq!(new_session(1, None).channel_id, None);
}

#[test]
fn create_goal_defaults_description_to_empty() {
    assert_eq!(new_goal(1, 2, "t".to_string(), None).description.as_deref(), Some(""));
    assert_eq!(new_goal(1, 2, "t".to_string(), Some("d".to_string())).description.as_deref(), Some("d"));
}

#[test]
fn create_memory_is_short_term_with_options() {
    let m = new_memory(1, "c".to_string(), Some(MemoryImportance::Low), None);
    assert_eq!(m.memory_type, MemoryType::ShortTerm);
    assert_eq!(m.importance, MemoryImportance::Low);
    assert!(m.tags.is_empty());
    let m = new_memory(1, "c".to_string(), None, Some(vec!["t".to_string()]));
    assert_eq!(m.importance, MemoryImportance::Medium);
    assert_eq!(m.tags, vec!["t".to_string()]);
}

#[test]
fn idempotent_execution_carries_its_key() {
    let e = new_idempotent_execution(1, 2, 3, "t".to_string(), JsonValue::Null, "k".to_string());
    assert_eq!(e.idempotency_key.as_deref(), Some("k"));
    assert_eq!(e.status, ToolStatus::Pending);
}

#[test]
fn request_key_is_the_given_one_or_generated() {
    let input = JsonValue::Bool(true);
    assert_eq!(request_idempotency_key(Some("mine".to_string()), 1, 2, 3, "tool", &input), "mine");
    let generated = request_idempotency_key(None, 1, 2, 3, "tool", &input);
    let again = request_idempotency_key(None, 1, 2, 3, "tool", &input);
    assert_eq!(generated, again);
    assert!(generated.starts_with("auto:tool:"));
    let today = chrono::Utc::now().format("%Y%m%d").to_string();
    assert_eq!(generated, ToolExecution::idempotency_key_for_day(1, 2, 3, "tool", &input, &today));
}

#[test]
fn list_limit_defaults_to_fifty() {
    assert_eq!(memory_list_limit(None), 50);
    assert_eq!(DEFAULT_MEMORY_LIST_LIMIT, 50);
    assert_eq!(memory_list_limit(Some(3)), 3);
}
