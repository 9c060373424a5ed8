use openclaw_state_engine::json::JsonValue;
use openclaw_state_engine::models::entity::EntityBase;
use openclaw_state_engine::models::goal::Goal;
use openclaw_state_engine::models::session::Session;
use openclaw_state_engine::models::status::{GoalPriority, GoalStatus, ToolStatus};
use openclaw_state_engine::models::tool_execution::ToolExecution;
use openclaw_state_engine::replay::{output_preview, replay_report, ReplayExecution, OUTPUT_PREVIEW_BYTES};
use openclaw_state_engine::time::Timestamp;

const T0: Timestamp = Timestamp { secs: 1_710_460_800, nanos: 0 }; // 2024-03-15 00:00:00 UTC
const T1: Timestamp = Timestamp { secs: 1_710_464_461, nanos: 5 }; // 2024-03-15 01:01:01 UTC

fn base(id: u128) -> EntityBase {
    EntityBase { id, created_at: T0, updated_at: T0 }
}

#[test]
fn output_preview_cuts_at_the_last_whole_character() {
    assert_eq!(output_preview("short", 60), "short");
    assert_eq!(output_preview("abcdef", 3), "abc...");
    assert_eq!(output_preview("abc", 3), "abc");
    assert_eq!(output_preview("ééé", 6), "ééé");
    assert_eq!(output_preview("ééééé", 2), "é...");
    assert_eq!(output_preview("ééééé", 3), "é...");
    assert_eq!(output_preview("aé", 1), "a...");
    let long = "ü".repeat(70);
    assert_eq!(output_preview(&long, OUTPUT_PREVIEW_BYTES), format!("{}...", "ü".repeat(30)));
    let ascii = "y".repeat(61);
    assert_eq!(output_preview(&ascii, OUTPUT_PREVIEW_BYTES), format!("{}...", "y".repeat(60)));
}

#[test]
fn report_of_a_session_with_two_goals() {
    let mut session = Session::new(2);
    session.base = base(1);
    session.last_activity_at = T1;

    let mut g1 = Goal::new(2, 1, "Search".to_string()).with_description("find things".to_string());
    g1.base = base(3);
    g1.status = GoalStatus::InProgress;
    g1.priority = GoalPriority::High;
    g1.started_at = Some(T1);
    let mut g2 = Goal::new(2, 1, "Idle".to_string()).with_description(String::new());
    g2.base = base(4);

    let mut e = ToolExecution::new(2, 1, 3, "web_search".to_string(), JsonValue::Null)
        .with_idempotency_key("k1".to_string());
    e.base = base(5);
    e.status = ToolStatus::Failed;
    e.error = Some("timeout".to_string());
    let long_output = "x".repeat(61);
    let record = ReplayExecution {
        execution: e,
        input_json: "{\"q\":\"rust\"}".to_string(),
        output_json: Some(long_output),
    };

    let lines = replay_report(&session, &vec![g1, g2], &vec![vec![record], vec![]]);
    let expected: Vec<String> = vec![
        "╔════════════════════════════════════════════════════════════════╗".to_string(),
        "║                    SESSION REPLAY                              ║".to_string(),
        "╚════════════════════════════════════════════════════════════════╝".to_string(),
        String::new(),
        "Session ID:     00000000-0000-0000-0000-000000000001".to_string(),
        "User ID:        00000000-0000-0000-0000-000000000002".to_string(),
        "Status:         Active".to_string(),
        "Created:        2024-03-15 00:00:00 UTC".to_string(),
        "Last Activity:  2024-03-15 01:01:01 UTC".to_string(),
        String::new(),
        "┌─────────────────────────────────────────────────────────────────┐".to_string(),
        "│ GOALS (2)                                                        │".to_string(),
        "└─────────────────────────────────────────────────────────────────┘".to_string(),
        String::new(),
        "  Goal #1: Search".to_string(),
        "  ID:          00000000-0000-0000-0000-000000000003".to_string(),
        "  Status:      InProgress".to_string(),
        "  Priority:    High".to_string(),
        "  Description: find things".to_string(),
        "  Started:     2024-03-15 01:01:01 UTC".to_string(),
        String::new(),
        "  ┌── TOOL EXECUTIONS (1) ──".to_string(),
        "  │".to_string(),
        "  │  Tool:      web_search".to_string(),
        "  │  Status:    Failed".to_string(),
        "  │  Input:     {\"q\":\"rust\"}".to_string(),
        format!("  │  Output:    {}...", "x".repeat(60)),
        "  │  Error:     timeout".to_string(),
        "  │  Idempotency Key: k1".to_string(),
        "  │  Time:      00:00:00".to_string(),
        "  └───────────────────────────".to_string(),
        String::new(),
        "  Goal #2: Idle".to_string(),
        "  ID:          00000000-0000-0000-0000-000000000004".to_string(),
        "  Status:      Pending".to_string(),
        "  Priority:    Medium".to_string(),
        String::new(),
        "══════════════════════════════════════════════════════════════════".to_string(),
        "Replay complete. 2 goal(s), 1 execution(s) total.".to_string(),
    ];
    assert_eq!(lines, expected);
}

#[test]
fn report_of_a_session_without_goals() {
    let mut session = Session::new(2);
    session.base = base(1);
    session.last_activity_at = T0;
    let lines = replay_report(&session, &vec![], &vec![]);
    assert_eq!(lines.len(), 16);
    assert_eq!(lines[11], "│ GOALS (0)                                                        │");
    assert_eq!(lines[15], "Replay complete. 0 goal(s), 0 execution(s) total.");
}
