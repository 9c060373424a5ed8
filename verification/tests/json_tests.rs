use openclaw_state_engine::json::{text_eq, JsonNumber, JsonValue};

fn s(t: &str) -> JsonValue {
    JsonValue::String(t.to_string())
}

fn obj(members: Vec<(&str, JsonValue)>) -> JsonValue {
    JsonValue::Object(members.into_iter().map(|(k, v)| (k.to_string(), v)).collect())
}

#[test]
fn equal_documents_compare_equal() {
    let a = obj(vec![("a", JsonValue::Number(JsonNumber::PosInt(1))), ("b", JsonValue::Array(vec![s("x"), JsonValue::Null]))]);
    let b = obj(vec![("a", JsonValue::Number(JsonNumber::PosInt(1))), ("b", JsonValue::Array(vec![s("x"), JsonValue::Null]))]);
    assert!(a.equals(&b));
    assert!(b.equals(&a));
}

#[test]
fn different_documents_compare_unequal() {
    let a = obj(vec![("a", JsonValue::Number(JsonNumber::PosInt(1)))]);
    let b = obj(vec![("a", JsonValue::Number(JsonNumber::PosInt(2)))]);
    let c = obj(vec![("b", JsonValue::Number(JsonNumber::PosInt(1)))]);
    assert!(!a.equals(&b));
    assert!(!a.equals(&c));
    assert!(!JsonValue::Array(vec![s("x")]).equals(&JsonValue::Array(vec![s("x"), s("y")])));
    assert!(!s("1").equals(&JsonValue::Number(JsonNumber::PosInt(1))));
    assert!(!JsonValue::Bool(true).equals(&JsonValue::Bool(false)));
}

#[test]
fn numbers_of_different_kinds_are_unequal() {
    let one = JsonValue::Number(JsonNumber::PosInt(1));
    let one_float = JsonValue::Number(JsonNumber::Float(1.0f64.to_bits()));
    assert!(!one.equals(&one_float));
    let minus = JsonValue::Number(JsonNumber::NegInt(-1));
    assert!(minus.equals(&JsonValue::Number(JsonNumber::NegInt(-1))));
}

#[test]
fn positive_and_negative_zero_floats_are_equal() {
    let pz = JsonValue::Number(JsonNumber::Float(0.0f64.to_bits()));
    let nz = JsonValue::Number(JsonNumber::Float((-0.0f64).to_bits()));
    assert!(pz.equals(&nz));
    let half = JsonValue::Number(JsonNumber::Float(0.5f64.to_bits()));
    assert!(!pz.equals(&half));
}

#[test]
fn deep_copy_is_equal() {
    let a = obj(vec![("k", JsonValue::Array(vec![s("v"), JsonValue::Bool(true), obj(vec![("z", JsonValue::Null)])]))]);
    let c = a.deep_copy();
    assert!(c.equals(&a));
}

#[test]
fn empty_object_is_an_object_without_members() {
    match JsonValue::empty_object() {
        JsonValue::Object(m) => assert!(m.is_empty()),
        other => panic!("not an object: {:?}", other),
    }
}

#[test]
fn text_equality() {
    assert!(text_eq("abc", "abc"));
    assert!(!text_eq("abc", "abd"));
    assert!(!text_eq("abc", "ab"));
    assert!(text_eq("", ""));
}
