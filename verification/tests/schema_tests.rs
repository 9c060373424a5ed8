use openclaw_state_engine::json::{JsonNumber, JsonValue};
use openclaw_state_engine::models::tool_schema::{
    text_contains, ParameterType, RetryPolicy, RetryState, ToolParameter, ToolSchema, ValidationError,
    TWO_F32_BITS,
};

fn obj(members: Vec<(&str, JsonValue)>) -> JsonValue {
    JsonValue::Object(members.into_iter().map(|(k, v)| (k.to_string(), v)).collect())
}

fn s(t: &str) -> JsonValue {
    JsonValue::String(t.to_string())
}

fn param(name: &str, t: ParameterType, required: bool) -> ToolParameter {
    ToolParameter {
        name: name.to_string(),
        description: String::new(),
        param_type: t,
        required,
        default_value: None,
        enum_values: None,
    }
}

fn email_schema() -> ToolSchema {
    let mut mode = param("mode", ParameterType::String, false);
    mode.enum_values = Some(vec![s("fast"), s("slow")]);
    ToolSchema::new("send_email".to_string(), "Sends".to_string())
        .with_parameter(param("to", ParameterType::String, true))
        .with_parameter(param("count", ParameterType::Integer, false))
        .with_parameter(mode)
}

#[test]
fn schema_new_and_builders() {
    let sc = ToolSchema::new("t".to_string(), "d".to_string())
        .with_version("2.0".to_string())
        .with_return_type(ParameterType::Object, "result".to_string())
        .with_category("io".to_string())
        .with_tags(vec!["x".to_string()])
        .disabled();
    assert_eq!(sc.version, "2.0");
    assert_eq!(sc.return_type, Some(ParameterType::Object));
    assert_eq!(sc.return_description.as_deref(), Some("result"));
    assert_eq!(sc.category.as_deref(), Some("io"));
    assert!(!sc.enabled);
    assert!(!sc.deprecated);
    assert_eq!(ToolSchema::new("a".to_string(), "b".to_string()).version, "1.0.0");
    let p = ToolParameter::default();
    assert!(p.name.is_empty() && !p.required && p.param_type == ParameterType::String);
}

#[test]
fn valid_input_passes() {
    let input = obj(vec![("count", JsonValue::Number(JsonNumber::NegInt(-3))), ("mode", s("fast")), ("to", s("a@b"))]);
    assert!(email_schema().validate_input(&input).is_ok());
}

#[test]
fn unknown_members_are_accepted() {
    let input = obj(vec![("extra", JsonValue::Null), ("to", s("a@b"))]);
    assert!(email_schema().validate_input(&input).is_ok());
}

#[test]
fn input_must_be_an_object() {
    let r = email_schema().validate_input(&JsonValue::Array(vec![]));
    assert!(matches!(r, Err(ValidationError::NotAnObject)));
}

#[test]
fn missing_required_parameter() {
    let r = email_schema().validate_input(&obj(vec![("mode", s("fast"))]));
    match r {
        Err(ValidationError::MissingParameter { name }) => assert_eq!(name, "to"),
        other => panic!("unexpected {:?}", other),
    }
}

#[test]
fn type_mismatch_reports_the_parameter() {
    let input = obj(vec![("count", JsonValue::Number(JsonNumber::Float(1.5f64.to_bits()))), ("to", s("a@b"))]);
    match email_schema().validate_input(&input) {
        Err(ValidationError::TypeMismatch { name, expected }) => {
            assert_eq!(name, "count");
            assert_eq!(expected, ParameterType::Integer);
        },
        other => panic!("unexpected {:?}", other),
    }
}

#[test]
fn value_outside_the_allowed_ones() {
    let input = obj(vec![("mode", s("medium")), ("to", s("a@b"))]);
    match email_schema().validate_input(&input) {
        Err(ValidationError::ValueNotAllowed { name, value, allowed }) => {
            assert_eq!(name, "mode");
            assert!(value.equals(&s("medium")));
            assert_eq!(allowed.len(), 2);
            assert!(allowed[0].equals(&s("fast")));
        },
        other => panic!("unexpected {:?}", other),
    }
}

#[test]
fn first_failing_member_in_order_is_reported() {
    let input = obj(vec![("count", s("three")), ("mode", s("medium")), ("to", s("a@b"))]);
    assert!(matches!(email_schema().validate_input(&input), Err(ValidationError::TypeMismatch { .. })));
}

#[test]
fn every_type_checks_its_kind() {
    let cases = vec![
        (ParameterType::String, s("x"), true),
        (ParameterType::String, JsonValue::Null, false),
        (ParameterType::Integer, JsonValue::Number(JsonNumber::PosInt(u64::MAX)), true),
        (ParameterType::Number, JsonValue::Number(JsonNumber::Float(2.5f64.to_bits())), true),
        (ParameterType::Number, s("2"), false),
        (ParameterType::Boolean, JsonValue::Bool(false), true),
        (ParameterType::Array, JsonValue::Array(vec![]), true),
        (ParameterType::Object, obj(vec![]), true),
        (ParameterType::Object, JsonValue::Array(vec![]), false),
    ];
    for (t, v, ok) in cases {
        let schema = ToolSchema::new("t".to_string(), "d".to_string()).with_parameter(param("p", t, true));
        let r = schema.validate_input(&obj(vec![("p", v)]));
        assert_eq!(r.is_ok(), ok, "type {:?}", t);
    }
}

#[test]
fn retry_policy_defaults() {
    let p = RetryPolicy::default();
    assert_eq!(p.max_attempts, 3);
    assert_eq!(p.initial_delay_ms, 1000);
    assert_eq!(p.max_delay_ms, 30000);
    assert_eq!(f32::from_bits(p.backoff_multiplier_bits), 2.0);
    assert_eq!(TWO_F32_BITS, 2.0f32.to_bits());
    assert_eq!(p.retryable_errors, vec!["timeout", "connection_error", "rate_limit", "service_unavailable"]);
    let st = RetryState::default();
    assert_eq!(st.attempt_count, 0);
    assert!(st.last_error.is_none() && st.next_retry_at.is_none());
}

#[test]
fn should_retry_matches_case_insensitively_while_attempts_remain() {
    let p = RetryPolicy::default();
    assert!(p.should_retry("Request TIMEOUT after 30s", 1));
    assert!(p.should_retry("rate_limit exceeded", 2));
    assert!(!p.should_retry("rate_limit exceeded", 3));
    assert!(!p.should_retry("permission denied", 0));
}

#[test]
fn substring_search() {
    assert!(text_contains("hello world", "o w"));
    assert!(text_contains("abc", ""));
    assert!(text_contains("abc", "abc"));
    assert!(!text_contains("abc", "abcd"));
    assert!(!text_contains("abc", "ac"));
    assert!(text_contains("ééx", "éx"));
}

#[test]
fn validation_messages() {
    assert_eq!(ValidationError::NotAnObject.message("", ""), "Input must be a JSON object");
    assert_eq!(
        ValidationError::MissingParameter { name: "q".to_string() }.message("", ""),
        "Missing required parameter: q"
    );
    assert_eq!(
        ValidationError::TypeMismatch { name: "n".to_string(), expected: ParameterType::Integer }.message("", ""),
        "Parameter 'n' type mismatch: expected Integer"
    );
    assert_eq!(
        ValidationError::ValueNotAllowed { name: "n".to_string(), value: JsonValue::Null, allowed: vec![] }
            .message("Number(3)", "[Number(1), Number(2)]"),
        "Parameter 'n' value Number(3) not in allowed values: [Number(1), Number(2)]"
    );
}
