//! Tool schema registry: schemas for the available tools, with the input
//! validation they define, and the retry policy for failed tools.
use crate::json::{
    equal_documents_wf_alike, has_key, items_eq, json_contains, json_eq, json_wf, members_eq,
    text_eq, JsonNumber, JsonValue,
};
use crate::models::entity::EntityBase;
use crate::time::Timestamp;
use vstd::prelude::*;

verus! {

/// Parameter type enumeration.
#[derive(Clone, Copy, Debug, PartialEq, Eq, Structural)]
pub enum ParameterType {
    String,
    Integer,
    Number,
    Boolean,
    Array,
    Object,
}

impl Default for ParameterType {
    fn default() -> (t: ParameterType)
        ensures
            t == ParameterType::String,
    {
        ParameterType::String
    }
}

/// Tool parameter definition for schema.
#[derive(Debug)]
pub struct ToolParameter {
    pub name: String,
    pub description: String,
    pub param_type: ParameterType,
    pub required: bool,
    pub default_value: Option<JsonValue>,
    pub enum_values: Option<Vec<JsonValue>>,
}

impl Default for ToolParameter {
    fn default() -> (p: ToolParameter)
        ensures
            p.name@.len() == 0,
            p.description@.len() == 0,
            p.param_type == ParameterType::String,
            !p.required,
            p.default_value is None,
            p.enum_values is None,
    {
        ToolParameter {
            name: String::new(),
            description: String::new(),
            param_type: ParameterType::String,
            required: false,
            default_value: None,
            enum_values: None,
        }
    }
}

/// Why an input does not satisfy a tool schema.
#[derive(Debug)]
pub enum ValidationError {
    /// The input is not a JSON object.
    NotAnObject,
    /// A required parameter has no member in the input.
    MissingParameter { name: String },
    /// A member's value is not of its parameter's type.
    TypeMismatch { name: String, expected: ParameterType },
    /// A member's value is not among its parameter's allowed values.
    ValueNotAllowed { name: String, value: JsonValue, allowed: Vec<JsonValue> },
}

impl ParameterType {
    /// The name of the type, as `{:?}` writes it.
    pub open spec fn name_spec(self) -> Seq<char> {
        match self {
            ParameterType::String => "String"@,
            ParameterType::Integer => "Integer"@,
            ParameterType::Number => "Number"@,
            ParameterType::Boolean => "Boolean"@,
            ParameterType::Array => "Array"@,
            ParameterType::Object => "Object"@,
        }
    }

    /// The name of the type, as `{:?}` writes it.
    pub fn name(&self) -> (s: &'static str)
        ensures
            s@ == self.name_spec(),
    {
        match self {
            ParameterType::String => "String",
            ParameterType::Integer => "Integer",
            ParameterType::Number => "Number",
            ParameterType::Boolean => "Boolean",
            ParameterType::Array => "Array",
            ParameterType::Object => "Object",
        }
    }
}

impl ParameterType {
    /// The type a name written by `{:?}` stands for; `None` for any other text.
    pub open spec fn from_name_spec(s: Seq<char>) -> Option<ParameterType> {
        if s == "String"@ {
            Some(ParameterType::String)
        } else if s == "Integer"@ {
            Some(ParameterType::Integer)
        } else if s == "Number"@ {
            Some(ParameterType::Number)
        } else if s == "Boolean"@ {
            Some(ParameterType::Boolean)
        } else if s == "Array"@ {
            Some(ParameterType::Array)
        } else if s == "Object"@ {
            Some(ParameterType::Object)
        } else {
            None
        }
    }

    /// The type a name written by `{:?}` stands for, if it is one.
    pub fn from_name(s: &str) -> (r: Option<ParameterType>)
        ensures
            r == ParameterType::from_name_spec(s@),
    {
        if text_eq(s, "String") {
            Some(ParameterType::String)
        } else if text_eq(s, "Integer") {
            Some(ParameterType::Integer)
        } else if text_eq(s, "Number") {
            Some(ParameterType::Number)
        } else if text_eq(s, "Boolean") {
            Some(ParameterType::Boolean)
        } else if text_eq(s, "Array") {
            Some(ParameterType::Array)
        } else if text_eq(s, "Object") {
            Some(ParameterType::Object)
        } else {
            None
        }
    }
}

/// Every parameter type reads back from the name written for it.
pub proof fn parameter_type_name_round_trip(t: ParameterType)
    ensures
        ParameterType::from_name_spec(t.name_spec()) == Some(t),
{
    reveal_strlit("String");
    assert("String"@[0] == 'S');
    reveal_strlit("Integer");
    assert("Integer"@[0] == 'I');
    reveal_strlit("Number");
    assert("Number"@[0] == 'N');
    reveal_strlit("Boolean");
    assert("Boolean"@[0] == 'B');
    reveal_strlit("Array");
    assert("Array"@[0] == 'A');
    reveal_strlit("Object");
    assert("Object"@[0] == 'O');
}

impl ValidationError {
    /// The text that reports the error. A value that is not allowed is
    /// reported with the texts that serde_json's `Debug` writes for the value
    /// and for the list of allowed values (floats among them, so they are
    /// written by the caller and handed in); the other errors ignore them.
    pub open spec fn message_spec(&self, value_text: Seq<char>, allowed_text: Seq<char>) -> Seq<
        char,
    > {
        match self {
            ValidationError::NotAnObject => "Input must be a JSON object"@,
            ValidationError::MissingParameter { name } => "Missing required parameter: "@ + name@,
            ValidationError::TypeMismatch { name, expected } => "Parameter '"@ + name@
                + "' type mismatch: expected "@ + expected.name_spec(),
            ValidationError::ValueNotAllowed { name, .. } => "Parameter '"@ + name@ + "' value "@
                + value_text + " not in allowed values: "@ + allowed_text,
        }
    }

    /// The text that reports the error, with the `Debug` texts of the value
    /// and of the allowed values where the error is a value not allowed.
    pub fn message(&self, value_text: &str, allowed_text: &str) -> (s: String)
        ensures
            s@ == self.message_spec(value_text@, allowed_text@),
    {
        match self {
            ValidationError::NotAnObject => String::from_str("Input must be a JSON object"),
            ValidationError::MissingParameter { name } => {
                let mut t = String::from_str("Missing required parameter: ");
                t.append(name.as_str());
                t
            },
            ValidationError::TypeMismatch { name, expected } => {
                let mut t = String::from_str("Parameter '");
                t.append(name.as_str());
                t.append("' type mismatch: expected ");
                t.append(expected.name());
                t
            },
            ValidationError::ValueNotAllowed { name, .. } => {
                let mut t = String::from_str("Parameter '");
                t.append(name.as_str());
                t.append("' value ");
                t.append(value_text);
                t.append(" not in allowed values: ");
                t.append(allowed_text);
                t
            },
        }
    }
}

/// Tool schema definition.
#[derive(Debug)]
pub struct ToolSchema {
    pub base: EntityBase,
    pub tool_name: String,
    pub description: String,
    pub version: String,
    pub parameters: Vec<ToolParameter>,
    pub return_type: Option<ParameterType>,
    pub return_description: Option<String>,
    pub category: Option<String>,
    pub tags: Vec<String>,
    pub enabled: bool,
    pub deprecated: bool,
    pub deprecation_message: Option<String>,
}

/// Whether a value has the given parameter type. An integer is a number
/// that serde_json holds as an integer (`is_i64() || is_u64()`).
pub open spec fn type_matches(v: JsonValue, t: ParameterType) -> bool {
    match t {
        ParameterType::String => v is String,
        ParameterType::Integer => v matches JsonValue::Number(n) && !(n is Float),
        ParameterType::Number => v is Number,
        ParameterType::Boolean => v is Bool,
        ParameterType::Array => v is Array,
        ParameterType::Object => v is Object,
    }
}

/// A required parameter without a member in the input.
pub open spec fn missing_at(
    params: Seq<ToolParameter>,
    members: Seq<(String, JsonValue)>,
    j: int,
) -> bool {
    &&& 0 <= j < params.len()
    &&& params[j].required
    &&& !has_key(members, params[j].name@)
}

/// `j` is the first parameter named `key`.
pub open spec fn first_named(params: Seq<ToolParameter>, key: Seq<char>, j: int) -> bool {
    &&& 0 <= j < params.len()
    &&& params[j].name@ == key
    &&& forall|i: int| 0 <= i < j ==> (#[trigger] params[i]).name@ != key
}

/// No parameter is named `key`.
pub open spec fn unnamed(params: Seq<ToolParameter>, key: Seq<char>) -> bool {
    forall|i: int| 0 <= i < params.len() ==> (#[trigger] params[i]).name@ != key
}

/// A value is among a parameter's allowed values, if it has any.
pub open spec fn allowed_by(p: ToolParameter, v: JsonValue) -> bool {
    p.enum_values matches Some(ev) ==> json_contains(ev@, v)
}

/// A member satisfies the first parameter of its name, if there is one:
/// the value has the parameter's type and is among its allowed values.
pub open spec fn member_ok(params: Seq<ToolParameter>, m: (String, JsonValue)) -> bool {
    forall|j: int|
        #![trigger params[j]]
        first_named(params, m.0@, j) ==> type_matches(m.1, params[j].param_type) && allowed_by(
            params[j],
            m.1,
        )
}

/// What `validate_input` decides for the parameters and the input.
pub open spec fn validation_holds(
    params: Seq<ToolParameter>,
    input: JsonValue,
    r: Result<(), ValidationError>,
) -> bool {
    match input {
        JsonValue::Object(ms) => {
            let members = ms@;
            &&& r is Ok <==> (forall|j: int| !#[trigger] missing_at(params, members, j)) && (forall|
                k: int,
            |
                0 <= k < members.len() ==> member_ok(params, #[trigger] members[k]))
            &&& r matches Err(ValidationError::MissingParameter { name }) ==> exists|j: int|
                {
                    &&& #[trigger] missing_at(params, members, j)
                    &&& forall|i: int| 0 <= i < j ==> !missing_at(params, members, i)
                    &&& name@ == params[j].name@
                }
            &&& r matches Err(ValidationError::TypeMismatch { name, expected }) ==> {
                &&& forall|j: int| !#[trigger] missing_at(params, members, j)
                &&& exists|k: int, j: int|
                    {
                        &&& 0 <= k < members.len()
                        &&& forall|i: int| 0 <= i < k ==> member_ok(params, #[trigger] members[i])
                        &&& #[trigger] first_named(params, members[k].0@, j)
                        &&& !type_matches(members[k].1, params[j].param_type)
                        &&& name@ == params[j].name@
                        &&& expected == params[j].param_type
                    }
            }
            &&& r matches Err(ValidationError::ValueNotAllowed { name, value, allowed }) ==> {
                &&& forall|j: int| !#[trigger] missing_at(params, members, j)
                &&& exists|k: int, j: int|
                    {
                        &&& 0 <= k < members.len()
                        &&& forall|i: int| 0 <= i < k ==> member_ok(params, #[trigger] members[i])
                        &&& #[trigger] first_named(params, members[k].0@, j)
                        &&& type_matches(members[k].1, params[j].param_type)
                        &&& params[j].enum_values matches Some(ev)
                        &&& !json_contains(ev@, members[k].1)
                        &&& name@ == params[j].name@
                        &&& json_eq(value, members[k].1)
                        &&& items_eq(allowed@, ev@)
                    }
            }
            &&& !(r matches Err(ValidationError::NotAnObject))
        },
        _ => r matches Err(ValidationError::NotAnObject),
    }
}

impl JsonValue {
    /// A copy of the document, equal to it.
    #[verifier::loop_isolation(false)]
    pub fn deep_copy(&self) -> (r: JsonValue)
        ensures
            json_eq(r, *self),
            json_wf(r) == json_wf(*self),
        decreases self,
    {
        let r = match self {
            JsonValue::Null => JsonValue::Null,
            JsonValue::Bool(b) => JsonValue::Bool(*b),
            JsonValue::Number(n) => JsonValue::Number(*n),
            JsonValue::String(s) => JsonValue::String(s.clone()),
            JsonValue::Array(xs) => {
                let mut out: Vec<JsonValue> = Vec::new();
                let mut i: usize = 0;
                while i < xs.len()
                    invariant
                        0 <= i <= xs.len(),
                        out@.len() == i,
                        items_eq(out@, xs@.take(i as int)),
                    decreases xs.len() - i,
                {
                    proof {
                        assert(decreases_to!(*xs => xs[i as int]));
                    }
                    let c = xs[i].deep_copy();
                    let ghost before = out@;
                    out.push(c);
                    proof {
                        assert(out@.drop_last() =~= before);
                        assert(xs@.take(i + 1).drop_last() =~= xs@.take(i as int));
                    }
                    i = i + 1;
                }
                proof {
                    assert(xs@.take(xs.len() as int) =~= xs@);
                }
                JsonValue::Array(out)
            },
            JsonValue::Object(xs) => {
                let mut out: Vec<(String, JsonValue)> = Vec::new();
                let mut i: usize = 0;
                while i < xs.len()
                    invariant
                        0 <= i <= xs.len(),
                        out@.len() == i,
                        members_eq(out@, xs@.take(i as int)),
                    decreases xs.len() - i,
                {
                    proof {
                        assert(decreases_to!(*xs => xs[i as int]));
                    }
                    let c = xs[i].1.deep_copy();
                    let k = xs[i].0.clone();
                    let ghost before = out@;
                    out.push((k, c));
                    proof {
                        assert(out@.drop_last() =~= before);
                        assert(xs@.take(i + 1).drop_last() =~= xs@.take(i as int));
                    }
                    i = i + 1;
                }
                proof {
                    assert(xs@.take(xs.len() as int) =~= xs@);
                }
                JsonValue::Object(out)
            },
        };
        proof {
            equal_documents_wf_alike(r, *self);
        }
        r
    }
}

/// Copies of all documents in a vector, equal to them one by one.
fn copy_values(xs: &Vec<JsonValue>) -> (r: Vec<JsonValue>)
    ensures
        items_eq(r@, xs@),
{
    let mut out: Vec<JsonValue> = Vec::new();
    let mut i: usize = 0;
    while i < xs.len()
        invariant
            0 <= i <= xs.len(),
            out@.len() == i,
            items_eq(out@, xs@.take(i as int)),
        decreases xs.len() - i,
    {
        let c = xs[i].deep_copy();
        let ghost before = out@;
        out.push(c);
        proof {
            assert(out@.drop_last() =~= before);
            assert(xs@.take(i + 1).drop_last() =~= xs@.take(i as int));
        }
        i = i + 1;
    }
    proof {
        assert(xs@.take(xs.len() as int) =~= xs@);
    }
    out
}

/// Whether a member list has a member under `key`.
fn has_member(members: &Vec<(String, JsonValue)>, key: &str) -> (r: bool)
    ensures
        r == has_key(members@, key@),
{
    let mut i: usize = 0;
    while i < members.len()
        invariant
            0 <= i <= members.len(),
            forall|k: int| 0 <= k < i ==> (#[trigger] members@[k]).0@ != key@,
        decreases members.len() - i,
    {
        if text_eq(members[i].0.as_str(), key) {
            return true;
        }
        i = i + 1;
    }
    false
}

/// The first parameter named `key`, if any.
fn find_parameter(params: &Vec<ToolParameter>, key: &str) -> (r: Option<usize>)
    ensures
        r matches Some(j) ==> first_named(params@, key@, j as int),
        r is None ==> unnamed(params@, key@),
{
    let mut i: usize = 0;
    while i < params.len()
        invariant
            0 <= i <= params.len(),
            forall|k: int| 0 <= k < i ==> (#[trigger] params@[k]).name@ != key@,
        decreases params.len() - i,
    {
        if text_eq(params[i].name.as_str(), key) {
            return Some(i);
        }
        i = i + 1;
    }
    None
}

/// Whether a vector of documents holds one equal to `v`.
fn contains_value(xs: &Vec<JsonValue>, v: &JsonValue) -> (r: bool)
    ensures
        r == json_contains(xs@, *v),
{
    let mut i: usize = 0;
    while i < xs.len()
        invariant
            0 <= i <= xs.len(),
            forall|k: int| 0 <= k < i ==> !json_eq(#[trigger] xs@[k], *v),
        decreases xs.len() - i,
    {
        if xs[i].equals(v) {
            return true;
        }
        i = i + 1;
    }
    false
}

impl ToolSchema {
    /// A new enabled, non-deprecated schema at version `1.0.0`, with no
    /// parameters, return type, category or tags.
    pub fn new(tool_name: String, description: String) -> (s: ToolSchema)
        ensures
            s.base.wf(),
            s.base.created_at == s.base.updated_at,
            s.tool_name == tool_name,
            s.description == description,
            s.version@ == "1.0.0"@,
            s.parameters@.len() == 0,
            s.return_type is None,
            s.return_description is None,
            s.category is None,
            s.tags@.len() == 0,
            s.enabled,
            !s.deprecated,
            s.deprecation_message is None,
    {
        ToolSchema {
            base: EntityBase::new(),
            tool_name,
            description,
            version: String::from_str("1.0.0"),
            parameters: Vec::new(),
            return_type: None,
            return_description: None,
            category: None,
            tags: Vec::new(),
            enabled: true,
            deprecated: false,
            deprecation_message: None,
        }
    }

    /// The schema at the given version.
    pub fn with_version(self, version: String) -> (s: ToolSchema)
        ensures
            s == (ToolSchema { version, ..self }),
    {
        let mut s = self;
        s.version = version;
        s
    }

    /// The schema with one more parameter, after the others.
    pub fn with_parameter(self, param: ToolParameter) -> (s: ToolSchema)
        ensures
            s == (ToolSchema { parameters: s.parameters, ..self }),
            s.parameters@ == self.parameters@.push(param),
    {
        let mut s = self;
        s.parameters.push(param);
        s
    }

    /// The schema returning the given type, so described.
    pub fn with_return_type(self, return_type: ParameterType, description: String) -> (s:
        ToolSchema)
        ensures
            s == (ToolSchema {
                return_type: Some(return_type),
                return_description: Some(description),
                ..self
            }),
    {
        let mut s = self;
        s.return_type = Some(return_type);
        s.return_description = Some(description);
        s
    }

    /// The schema in the given category.
    pub fn with_category(self, category: String) -> (s: ToolSchema)
        ensures
            s == (ToolSchema { category: Some(category), ..self }),
    {
        let mut s = self;
        s.category = Some(category);
        s
    }

    /// The schema with the given tags.
    pub fn with_tags(self, tags: Vec<String>) -> (s: ToolSchema)
        ensures
            s == (ToolSchema { tags, ..self }),
    {
        let mut s = self;
        s.tags = tags;
        s
    }

    /// The schema, disabled.
    pub fn disabled(self) -> (s: ToolSchema)
        ensures
            s == (ToolSchema { enabled: false, ..self }),
    {
        let mut s = self;
        s.enabled = false;
        s
    }

    /// Checks an input against the schema.
    ///
    /// The input must be an object; every required parameter must have a
    /// member; and each member, in order, must have the type of the first
    /// parameter of its name and be among that parameter's allowed values,
    /// if it has any. Members that no parameter names are accepted. The
    /// first failure is reported.
    #[verifier::loop_isolation(false)]
    pub fn validate_input(&self, input: &JsonValue) -> (r: Result<(), ValidationError>)
        ensures
            validation_holds(self.parameters@, *input, r),
    {
        let members = match input {
            JsonValue::Object(m) => m,
            _ => {
                return Err(ValidationError::NotAnObject);
            },
        };
        let params = &self.parameters;
        let mut i: usize = 0;
        while i < params.len()
            invariant
                0 <= i <= params.len(),
                forall|j: int| 0 <= j < i ==> !#[trigger] missing_at(params@, members@, j),
            decreases params.len() - i,
        {
            if params[i].required && !has_member(members, params[i].name.as_str()) {
                let name = params[i].name.clone();
                assert(missing_at(params@, members@, i as int));
                return Err(ValidationError::MissingParameter { name });
            }
            i = i + 1;
        }
        assert(forall|j: int| !#[trigger] missing_at(params@, members@, j));
        let mut k: usize = 0;
        while k < members.len()
            invariant
                0 <= k <= members.len(),
                forall|j: int| !#[trigger] missing_at(params@, members@, j),
                forall|i: int| 0 <= i < k ==> member_ok(params@, #[trigger] members@[i]),
            decreases members.len() - k,
        {
            let key = members[k].0.as_str();
            let value = &members[k].1;
            match find_parameter(params, key) {
                Some(j) => {
                    let param = &params[j];
                    if let Err(e) = ToolSchema::validate_type(value, param.param_type, &param.name) {
                        assert(first_named(params@, members@[k as int].0@, j as int));
                        assert(!member_ok(params@, members@[k as int]));
                        return Err(e);
                    }
                    if let Some(allowed) = &param.enum_values {
                        if !contains_value(allowed, value) {
                            let name = param.name.clone();
                            let v = value.deep_copy();
                            let a = copy_values(allowed);
                            assert(first_named(params@, members@[k as int].0@, j as int));
                            assert(!member_ok(params@, members@[k as int]));
                            return Err(ValidationError::ValueNotAllowed { name, value: v, allowed: a });
                        }
                    }
                    assert(member_ok(params@, members@[k as int])) by {
                        assert forall|jj: int|
                            #![trigger params@[jj]]
                            first_named(params@, members@[k as int].0@, jj) implies jj == j by {
                            if jj < j {
                                assert(params@[jj].name@ != key@);
                            } else if jj > j {
                                assert(params@[j as int].name@ != key@);
                            }
                        }
                    }
                },
                None => {
                    assert(member_ok(params@, members@[k as int])) by {
                        assert forall|jj: int|
                            #![trigger params@[jj]]
                            first_named(params@, members@[k as int].0@, jj) implies false by {
                            assert(params@[jj].name@ != key@);
                        }
                    }
                },
            }
            k = k + 1;
        }
        Ok(())
    }

    /// Checks that a value has the expected type.
    fn validate_type(value: &JsonValue, expected: ParameterType, name: &String) -> (r: Result<
        (),
        ValidationError,
    >)
        ensures
            r is Ok <==> type_matches(*value, expected),
            r matches Err(e) ==> e matches ValidationError::TypeMismatch { name: n, expected: t }
                && n == *name && t == expected,
    {
        let valid = match expected {
            ParameterType::String => matches!(value, JsonValue::String(_)),
            ParameterType::Integer => match value {
                JsonValue::Number(JsonNumber::PosInt(_)) => true,
                JsonValue::Number(JsonNumber::NegInt(_)) => true,
                _ => false,
            },
            ParameterType::Number => matches!(value, JsonValue::Number(_)),
            ParameterType::Boolean => matches!(value, JsonValue::Bool(_)),
            ParameterType::Array => matches!(value, JsonValue::Array(_)),
            ParameterType::Object => matches!(value, JsonValue::Object(_)),
        };
        if valid {
            Ok(())
        } else {
            Err(ValidationError::TypeMismatch { name: name.clone(), expected })
        }
    }
}

/// Whether `needle` occurs in `hay` as a run of consecutive characters.
pub open spec fn contains_text(hay: Seq<char>, needle: Seq<char>) -> bool {
    exists|i: int|
        0 <= i && i + needle.len() <= hay.len() && #[trigger] hay.subrange(i, i + needle.len())
            == needle
}

/// The text that std's `str::to_lowercase` gives for a text.
pub uninterp spec fn lowercase_form(s: Seq<char>) -> Seq<char>;

/// Lower-cases a text: calls std's `str::to_lowercase`.
///
/// Claims that the result is `lowercase_form` of the text; Unicode's case
/// mapping is not restated.
#[verifier::external_body]
fn lowercase(s: &str) -> (r: String)
    ensures
        r@ == lowercase_form(s@),
{
    s.to_lowercase()
}

/// Whether `needle` occurs in `hay`, as `str::contains` answers for a text
/// pattern.
pub fn text_contains(hay: &str, needle: &str) -> (r: bool)
    ensures
        r == contains_text(hay@, needle@),
{
    let h = hay.unicode_len();
    let n = needle.unicode_len();
    if n > h {
        proof {
            assert forall|i: int|
                0 <= i && i + needle@.len() <= hay@.len() implies #[trigger] hay@.subrange(
                i,
                i + needle@.len(),
            ) != needle@ by {}
        }
        return false;
    }
    if n == 0 {
        proof {
            let z: int = 0;
            assert(hay@.subrange(z, z + needle@.len()) =~= needle@);
        }
        return true;
    }
    let mut i: usize = 0;
    while h - i >= n
        invariant
            h == hay@.len(),
            n == needle@.len(),
            1 <= n <= h,
            0 <= i <= h,
            forall|k: int| 0 <= k < i ==> #[trigger] hay@.subrange(k, k + n) != needle@,
        decreases h - i,
    {
        let mut j: usize = 0;
        let mut same = true;
        while j < n
            invariant
                h == hay@.len(),
                n == needle@.len(),
                i + n <= h,
                0 <= j <= n,
                same ==> forall|m: int| 0 <= m < j ==> hay@[i + m] == needle@[m],
                !same ==> hay@.subrange(i as int, i + n) != needle@,
            decreases n - j,
        {
            if hay.get_char(i + j) != needle.get_char(j) {
                proof {
                    assert(hay@.subrange(i as int, i + n)[j as int] == hay@[i + j]);
                }
                same = false;
            }
            j = j + 1;
        }
        if same {
            proof {
                assert(hay@.subrange(i as int, i + n) =~= needle@);
            }
            return true;
        }
        i = i + 1;
    }
    proof {
        assert forall|k: int|
            0 <= k && k + needle@.len() <= hay@.len() implies #[trigger] hay@.subrange(
            k,
            k + needle@.len(),
        ) != needle@ by {
            assert(k < i);
        }
    }
    false
}

/// Retry policy configuration for automatic retries.
///
/// The backoff multiplier, an `f32`, is kept as the bits of the number.
#[derive(Debug)]
pub struct RetryPolicy {
    pub max_attempts: u32,
    pub initial_delay_ms: u32,
    pub max_delay_ms: u32,
    pub backoff_multiplier_bits: u32,
    pub retryable_errors: Vec<String>,
}

/// The bits of the `f32` number 2.0.
pub const TWO_F32_BITS: u32 = 0x4000_0000u32;

impl Default for RetryPolicy {
    /// Three attempts, one second growing twofold up to thirty seconds,
    /// retrying timeouts, connection errors, rate limits and unavailable
    /// services.
    fn default() -> (p: RetryPolicy)
        ensures
            p.max_attempts == 3,
            p.initial_delay_ms == 1000,
            p.max_delay_ms == 30000,
            p.backoff_multiplier_bits == TWO_F32_BITS,
            p.retryable_errors@.len() == 4,
            p.retryable_errors@[0]@ == "timeout"@,
            p.retryable_errors@[1]@ == "connection_error"@,
            p.retryable_errors@[2]@ == "rate_limit"@,
            p.retryable_errors@[3]@ == "service_unavailable"@,
    {
        let mut errors: Vec<String> = Vec::new();
        errors.push(String::from_str("timeout"));
        errors.push(String::from_str("connection_error"));
        errors.push(String::from_str("rate_limit"));
        errors.push(String::from_str("service_unavailable"));
        RetryPolicy {
            max_attempts: 3,
            initial_delay_ms: 1000,
            max_delay_ms: 30000,
            backoff_multiplier_bits: TWO_F32_BITS,
            retryable_errors: errors,
        }
    }
}

impl RetryPolicy {
    /// Whether a failure with this error, on this attempt, is retried: only
    /// while attempts remain, and only if the lower-cased error holds one of
    /// the retryable errors, lower-cased.
    pub open spec fn retries(self, error: Seq<char>, attempt: u32) -> bool {
        &&& attempt < self.max_attempts
        &&& exists|i: int|
            0 <= i < self.retryable_errors@.len() && contains_text(
                lowercase_form(error),
                lowercase_form(#[trigger] self.retryable_errors@[i]@),
            )
    }

    /// Whether a failure with this error, on this attempt, is retried.
    pub fn should_retry(&self, error: &str, attempt: u32) -> (r: bool)
        ensures
            r == self.retries(error@, attempt),
    {
        if attempt >= self.max_attempts {
            return false;
        }
        let error_lower = lowercase(error);
        let mut i: usize = 0;
        while i < self.retryable_errors.len()
            invariant
                0 <= i <= self.retryable_errors@.len(),
                attempt < self.max_attempts,
                error_lower@ == lowercase_form(error@),
                forall|k: int|
                    0 <= k < i ==> !contains_text(
                        lowercase_form(error@),
                        lowercase_form(#[trigger] self.retryable_errors@[k]@),
                    ),
            decreases self.retryable_errors@.len() - i,
        {
            let e = lowercase(self.retryable_errors[i].as_str());
            if text_contains(error_lower.as_str(), e.as_str()) {
                assert(contains_text(
                    lowercase_form(error@),
                    lowercase_form(self.retryable_errors@[i as int]@),
                ));
                return true;
            }
            i = i + 1;
        }
        false
    }
}

/// Tool execution with retry tracking.
#[derive(Debug)]
pub struct RetryState {
    pub attempt_count: u32,
    pub last_error: Option<String>,
    pub next_retry_at: Option<Timestamp>,
}

impl Default for RetryState {
    fn default() -> (s: RetryState)
        ensures
            s.attempt_count == 0,
            s.last_error is None,
            s.next_retry_at is None,
    {
        RetryState { attempt_count: 0, last_error: None, next_retry_at: None }
    }
}

} // verus!
