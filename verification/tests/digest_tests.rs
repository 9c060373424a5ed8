use std::collections::hash_map::DefaultHasher;
use std::hash::{Hash, Hasher};

use openclaw_state_engine::json::{JsonNumber, JsonValue};
use openclaw_state_engine::models::tool_execution::ToolExecution;

fn sample_input() -> JsonValue {
    JsonValue::Object(vec![
        (
            "a".to_string(),
            JsonValue::Array(vec![
                JsonValue::Number(JsonNumber::PosInt(1)),
                JsonValue::Number(JsonNumber::NegInt(-2)),
                JsonValue::Number(JsonNumber::Float(0.5f64.to_bits())),
                JsonValue::Bool(true),
                JsonValue::Null,
                JsonValue::String("s".to_string()),
            ]),
        ),
        ("b".to_string(), JsonValue::Object(vec![])),
    ])
}

fn sample_serde_input() -> serde_json::Value {
    let mut map = serde_json::Map::new();
    map.insert(
        "a".to_string(),
        serde_json::Value::Array(vec![
            serde_json::Value::from(1u64),
            serde_json::Value::from(-2i64),
            serde_json::Value::from(0.5f64),
            serde_json::Value::Bool(true),
            serde_json::Value::Null,
            serde_json::Value::String("s".to_string()),
        ]),
    );
    map.insert("b".to_string(), serde_json::Value::Object(serde_json::Map::new()));
    serde_json::Value::Object(map)
}

#[test]
fn digest_matches_hashing_the_uuids_name_and_serde_json_value() {
    let mut h = DefaultHasher::new();
    uuid::Uuid::from_u128(1).hash(&mut h);
    uuid::Uuid::from_u128(2).hash(&mut h);
    uuid::Uuid::from_u128(3).hash(&mut h);
    "tool".hash(&mut h);
    sample_serde_input().hash(&mut h);
    let expected = format!("auto:tool:20240315:{:x}", h.finish());
    let key = ToolExecution::idempotency_key_for_day(1, 2, 3, "tool", &sample_input(), "20240315");
    assert_eq!(key, expected);
}

#[test]
fn both_zeros_share_a_key() {
    let pos = JsonValue::Object(vec![("x".to_string(), JsonValue::Number(JsonNumber::Float(0.0f64.to_bits())))]);
    let neg = JsonValue::Object(vec![("x".to_string(), JsonValue::Number(JsonNumber::Float((-0.0f64).to_bits())))]);
    let k1 = ToolExecution::idempotency_key_for_day(1, 2, 3, "t", &pos, "20240101");
    let k2 = ToolExecution::idempotency_key_for_day(1, 2, 3, "t", &neg, "20240101");
    assert_eq!(k1, k2);
}

#[test]
fn different_inputs_or_names_get_different_keys() {
    let a = ToolExecution::idempotency_key_for_day(1, 2, 3, "t", &JsonValue::Bool(true), "20240101");
    let b = ToolExecution::idempotency_key_for_day(1, 2, 3, "t", &JsonValue::Bool(false), "20240101");
    let c = ToolExecution::idempotency_key_for_day(1, 2, 3, "u", &JsonValue::Bool(true), "20240101");
    let d = ToolExecution::idempotency_key_for_day(2, 1, 3, "t", &JsonValue::Bool(true), "20240101");
    assert_ne!(a, b);
    assert_ne!(a, c);
    assert_ne!(a, d);
}
