use openclaw_state_engine::json::{JsonNumber, JsonValue};
use openclaw_state_engine::models::tool_schema::{ParameterType, ToolParameter, ToolSchema};
use openclaw_state_engine::persistence::rows::{decode_schema, encode_schema};
use openclaw_state_engine::persistence::store::tag_pattern;

fn schema() -> ToolSchema {
    let p = ToolParameter {
        name: "q".to_string(),
        description: "query".to_string(),
        param_type: ParameterType::Integer,
        required: true,
        default_value: None,
        enum_values: Some(vec![JsonValue::Number(JsonNumber::PosInt(1))]),
    };
    ToolSchema::new("search".to_string(), "web search".to_string())
        .with_version("2.0.0".to_string())
        .with_parameter(p)
        .with_return_type(ParameterType::Array, "results".to_string())
        .with_category("web".to_string())
        .with_tags(vec!["net".to_string(), "a \"b\"".to_string()])
}

#[test]
fn schema_round_trip() {
    let s = schema();
    let id = s.base.id;
    let row = encode_schema(s);
    assert_eq!(row.return_type.as_deref(), Some("Array"));
    assert_eq!(row.tags, "[\"net\",\"a \\\"b\\\"\"]");
    let back = decode_schema(row).unwrap();
    assert_eq!(back.base.id, id);
    assert_eq!(back.tool_name, "search");
    assert_eq!(back.version, "2.0.0");
    assert_eq!(back.return_type, Some(ParameterType::Array));
    assert_eq!(back.return_description.as_deref(), Some("results"));
    assert_eq!(back.category.as_deref(), Some("web"));
    assert_eq!(back.tags, vec!["net".to_string(), "a \"b\"".to_string()]);
    assert_eq!(back.parameters.len(), 1);
    assert_eq!(back.parameters[0].name, "q");
    assert!(back.enabled && !back.deprecated);
}

#[test]
fn schema_rows_refused_at_the_first_bad_column() {
    let mut row = encode_schema(schema());
    row.parameters = None;
    row.tags = "oops".to_string();
    assert_eq!(decode_schema(row).unwrap_err(), 4);

    let mut row = encode_schema(schema());
    row.tags = "oops".to_string();
    row.id = "bad".to_string();
    assert_eq!(decode_schema(row).unwrap_err(), 8);

    let mut row = encode_schema(schema());
    row.id = "bad".to_string();
    row.created_at = "bad".to_string();
    assert_eq!(decode_schema(row).unwrap_err(), 0);

    let mut row = encode_schema(schema());
    row.created_at = "bad".to_string();
    assert_eq!(decode_schema(row).unwrap_err(), 12);

    let mut row = encode_schema(schema());
    row.updated_at = "bad".to_string();
    assert_eq!(decode_schema(row).unwrap_err(), 13);
}

#[test]
fn unknown_return_type_reads_as_none() {
    let mut row = encode_schema(schema());
    row.return_type = Some("Float".to_string());
    assert_eq!(decode_schema(row).unwrap().return_type, None);
    assert_eq!(ParameterType::from_name("Boolean"), Some(ParameterType::Boolean));
    assert_eq!(ParameterType::from_name("boolean"), None);
}

#[test]
fn tag_search_pattern() {
    assert_eq!(tag_pattern("net"), "%\"net\"%");
}
