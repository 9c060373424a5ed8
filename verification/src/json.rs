//! JSON documents as plain values.
//!
//! Free-form entity fields (metadata, context, tool inputs and outputs) hold
//! JSON documents. `JsonValue` keeps the shape of a document as plain data so
//! that the validation logic can read it: numbers keep serde_json's three
//! kinds (non-negative integer, negative integer, finite float given by its
//! IEEE-754 bits), and an object keeps its members in key order, one member
//! per key, as serde_json's default map does: `json_wf` states this.
use vstd::prelude::*;

verus! {

/// A JSON number, in the three kinds that serde_json distinguishes.
#[derive(Clone, Copy, Debug)]
pub enum JsonNumber {
    /// An integer from zero up.
    PosInt(u64),
    /// An integer below zero.
    NegInt(i64),
    /// A finite floating-point number, given by the bits of its `f64`.
    Float(u64),
}

/// A JSON document.
#[derive(Debug)]
pub enum JsonValue {
    Null,
    Bool(bool),
    Number(JsonNumber),
    String(String),
    Array(Vec<JsonValue>),
    /// Members in key order, one per key (`json_wf`).
    Object(Vec<(String, JsonValue)>),
}

/// The bits of positive and negative zero.
pub open spec fn is_zero_bits(x: u64) -> bool {
    x == 0 || x == 0x8000_0000_0000_0000u64
}

/// Equality of numbers as serde_json defines it: same kind and same value;
/// finite floats are equal when their bits are, or when both are zero.
pub open spec fn number_eq(a: JsonNumber, b: JsonNumber) -> bool {
    match (a, b) {
        (JsonNumber::PosInt(x), JsonNumber::PosInt(y)) => x == y,
        (JsonNumber::NegInt(x), JsonNumber::NegInt(y)) => x == y,
        (JsonNumber::Float(x), JsonNumber::Float(y)) => x == y || (is_zero_bits(x) && is_zero_bits(y)),
        _ => false,
    }
}

/// Equality of JSON documents: same shape, equal numbers, equal texts, and
/// arrays and objects equal member by member.
pub open spec fn json_eq(a: JsonValue, b: JsonValue) -> bool
    decreases a,
{
    match a {
        JsonValue::Null => b is Null,
        JsonValue::Bool(x) => b matches JsonValue::Bool(y) && x == y,
        JsonValue::Number(x) => b matches JsonValue::Number(y) && number_eq(x, y),
        JsonValue::String(x) => b matches JsonValue::String(y) && x@ == y@,
        JsonValue::Array(xs) => b matches JsonValue::Array(ys) && items_eq(xs@, ys@),
        JsonValue::Object(xs) => b matches JsonValue::Object(ys) && members_eq(xs@, ys@),
    }
}

/// Two sequences of documents are equal element by element.
pub open spec fn items_eq(xs: Seq<JsonValue>, ys: Seq<JsonValue>) -> bool
    decreases xs,
{
    if xs.len() == 0 {
        ys.len() == 0
    } else {
        &&& ys.len() == xs.len()
        &&& items_eq(xs.drop_last(), ys.drop_last())
        &&& json_eq(xs.last(), ys.last())
    }
}

/// Two member lists are equal member by member: same key, equal value.
pub open spec fn members_eq(xs: Seq<(String, JsonValue)>, ys: Seq<(String, JsonValue)>) -> bool
    decreases xs,
{
    if xs.len() == 0 {
        ys.len() == 0
    } else {
        &&& ys.len() == xs.len()
        &&& members_eq(xs.drop_last(), ys.drop_last())
        &&& xs.last().0@ == ys.last().0@
        &&& json_eq(xs.last().1, ys.last().1)
    }
}

/// Whether a sequence of documents holds one equal to `v`.
pub open spec fn json_contains(xs: Seq<JsonValue>, v: JsonValue) -> bool {
    exists|i: int| 0 <= i < xs.len() && json_eq(#[trigger] xs[i], v)
}

/// Whether a document is the empty object `{}`.
pub open spec fn is_empty_object(v: JsonValue) -> bool {
    v matches JsonValue::Object(m) && m@.len() == 0
}

/// Whether text `a` sorts before text `b` as Rust orders strings: at the
/// first character where they differ, `a`'s is the lower, or `a` is a
/// proper prefix of `b` (the order of their UTF-8 bytes too).
pub open spec fn text_before(a: Seq<char>, b: Seq<char>) -> bool {
    exists|i: int|
        #![trigger a.take(i), b.take(i)]
        0 <= i <= a.len() && i <= b.len() && a.take(i) == b.take(i) && ((i == a.len() && i
            < b.len()) || (i < a.len() && i < b.len() && (a[i] as u32) < (b[i] as u32)))
}

/// The keys of a member list strictly ascend.
pub open spec fn keys_ascending(ms: Seq<(String, JsonValue)>) -> bool {
    forall|i: int, j: int|
        0 <= i < j < ms.len() ==> text_before(#[trigger] ms[i].0@, #[trigger] ms[j].0@)
}

/// A document as serde_json builds one: in every object, the members in
/// ascending key order, one per key.
pub open spec fn json_wf(v: JsonValue) -> bool
    decreases v,
{
    match v {
        JsonValue::Array(xs) => items_wf(xs@),
        JsonValue::Object(ms) => keys_ascending(ms@) && members_wf(ms@),
        _ => true,
    }
}

/// Every document of a sequence is well formed.
pub open spec fn items_wf(xs: Seq<JsonValue>) -> bool
    decreases xs,
{
    if xs.len() == 0 {
        true
    } else {
        items_wf(xs.drop_last()) && json_wf(xs.last())
    }
}

/// Every value of a member list is well formed.
pub open spec fn members_wf(ms: Seq<(String, JsonValue)>) -> bool
    decreases ms,
{
    if ms.len() == 0 {
        true
    } else {
        members_wf(ms.drop_last()) && json_wf(ms.last().1)
    }
}

/// In a well-formed object no two members share a key.
pub proof fn wf_object_keys_unique(ms: Seq<(String, JsonValue)>, i: int, j: int)
    requires
        keys_ascending(ms),
        0 <= i < ms.len(),
        0 <= j < ms.len(),
        i != j,
    ensures
        ms[i].0@ != ms[j].0@,
{
    if i < j {
        assert(text_before(ms[i].0@, ms[j].0@));
    } else {
        assert(text_before(ms[j].0@, ms[i].0@));
    }
}

/// Documents equal as serde_json compares them are well formed alike.
pub proof fn equal_documents_wf_alike(a: JsonValue, b: JsonValue)
    requires
        json_eq(a, b),
    ensures
        json_wf(a) == json_wf(b),
    decreases a,
{
    match a {
        JsonValue::Array(xs) => {
            if let JsonValue::Array(ys) = b {
                equal_items_wf_alike(xs@, ys@);
            }
        },
        JsonValue::Object(xs) => {
            if let JsonValue::Object(ys) = b {
                equal_members_wf_alike(xs@, ys@);
                assert(keys_ascending(xs@) == keys_ascending(ys@)) by {
                    if keys_ascending(ys@) {
                        assert forall|i: int, j: int|
                            0 <= i < j < xs@.len() implies text_before(
                            #[trigger] xs@[i].0@,
                            #[trigger] xs@[j].0@,
                        ) by {
                            assert(text_before(ys@[i].0@, ys@[j].0@));
                        }
                    }
                    if keys_ascending(xs@) {
                        assert forall|i: int, j: int|
                            0 <= i < j < ys@.len() implies text_before(
                            #[trigger] ys@[i].0@,
                            #[trigger] ys@[j].0@,
                        ) by {
                            assert(text_before(xs@[i].0@, xs@[j].0@));
                        }
                    }
                }
            }
        },
        _ => {},
    }
}

/// Equal sequences of documents are well formed alike.
pub proof fn equal_items_wf_alike(xs: Seq<JsonValue>, ys: Seq<JsonValue>)
    requires
        items_eq(xs, ys),
    ensures
        items_wf(xs) == items_wf(ys),
    decreases xs,
{
    if xs.len() > 0 {
        equal_items_wf_alike(xs.drop_last(), ys.drop_last());
        equal_documents_wf_alike(xs.last(), ys.last());
    }
}

/// Equal member lists have the same keys, and are well formed alike.
pub proof fn equal_members_wf_alike(xs: Seq<(String, JsonValue)>, ys: Seq<(String, JsonValue)>)
    requires
        members_eq(xs, ys),
    ensures
        xs.len() == ys.len(),
        forall|i: int| 0 <= i < xs.len() ==> (#[trigger] xs[i]).0@ == ys[i].0@,
        members_wf(xs) == members_wf(ys),
    decreases xs,
{
    if xs.len() > 0 {
        equal_members_wf_alike(xs.drop_last(), ys.drop_last());
        equal_documents_wf_alike(xs.last().1, ys.last().1);
        assert forall|i: int| 0 <= i < xs.len() implies (#[trigger] xs[i]).0@ == ys[i].0@ by {
            if i < xs.len() - 1 {
                assert(xs.drop_last()[i] == xs[i]);
                assert(ys.drop_last()[i] == ys[i]);
            }
        }
    }
}

/// Whether a member list has a member under `key`.
pub open spec fn has_key(members: Seq<(String, JsonValue)>, key: Seq<char>) -> bool {
    exists|i: int| 0 <= i < members.len() && (#[trigger] members[i]).0@ == key
}

/// Equality of two texts.
pub fn text_eq(a: &str, b: &str) -> (r: bool)
    ensures
        r == (a@ == b@),
{
    let x = a.to_owned();
    let y = b.to_owned();
    x == y
}

/// Equality of two numbers, as serde_json compares them.
pub fn number_equal(a: &JsonNumber, b: &JsonNumber) -> (r: bool)
    ensures
        r == number_eq(*a, *b),
{
    match (a, b) {
        (JsonNumber::PosInt(x), JsonNumber::PosInt(y)) => *x == *y,
        (JsonNumber::NegInt(x), JsonNumber::NegInt(y)) => *x == *y,
        (JsonNumber::Float(x), JsonNumber::Float(y)) => {
            *x == *y || ((*x == 0 || *x == 0x8000_0000_0000_0000u64) && (*y == 0 || *y
                == 0x8000_0000_0000_0000u64))
        },
        _ => false,
    }
}

proof fn lemma_items_eq_step(xs: Seq<JsonValue>, ys: Seq<JsonValue>, i: int)
    requires
        0 <= i < xs.len(),
        xs.len() == ys.len(),
    ensures
        items_eq(xs.take(i + 1), ys.take(i + 1)) == (items_eq(xs.take(i), ys.take(i)) && json_eq(
            xs[i],
            ys[i],
        )),
{
    assert(xs.take(i + 1).drop_last() =~= xs.take(i));
    assert(ys.take(i + 1).drop_last() =~= ys.take(i));
}

proof fn lemma_members_eq_step(xs: Seq<(String, JsonValue)>, ys: Seq<(String, JsonValue)>, i: int)
    requires
        0 <= i < xs.len(),
        xs.len() == ys.len(),
    ensures
        members_eq(xs.take(i + 1), ys.take(i + 1)) == (members_eq(xs.take(i), ys.take(i))
            && xs[i].0@ == ys[i].0@ && json_eq(xs[i].1, ys[i].1)),
{
    assert(xs.take(i + 1).drop_last() =~= xs.take(i));
    assert(ys.take(i + 1).drop_last() =~= ys.take(i));
}

proof fn lemma_items_eq_len(xs: Seq<JsonValue>, ys: Seq<JsonValue>)
    ensures
        items_eq(xs, ys) ==> xs.len() == ys.len(),
{
}

proof fn lemma_members_eq_len(xs: Seq<(String, JsonValue)>, ys: Seq<(String, JsonValue)>)
    ensures
        members_eq(xs, ys) ==> xs.len() == ys.len(),
{
}

impl JsonValue {
    /// The empty object `{}`.
    pub fn empty_object() -> (v: JsonValue)
        ensures
            is_empty_object(v),
            json_wf(v),
    {
        JsonValue::Object(Vec::new())
    }

    /// Whether two documents are equal, as serde_json compares them.
    #[verifier::loop_isolation(false)]
    pub fn equals(&self, other: &JsonValue) -> (r: bool)
        ensures
            r == json_eq(*self, *other),
        decreases self,
    {
        match (self, other) {
            (JsonValue::Null, JsonValue::Null) => true,
            (JsonValue::Bool(x), JsonValue::Bool(y)) => *x == *y,
            (JsonValue::Number(x), JsonValue::Number(y)) => number_equal(x, y),
            (JsonValue::String(x), JsonValue::String(y)) => text_eq(x.as_str(), y.as_str()),
            (JsonValue::Array(xs), JsonValue::Array(ys)) => {
                proof {
                    lemma_items_eq_len(xs@, ys@);
                }
                if xs.len() != ys.len() {
                    return false;
                }
                let n = xs.len();
                let mut i: usize = 0;
                while i < n
                    invariant
                        n == xs.len(),
                        n == ys.len(),
                        0 <= i <= n,
                        items_eq(xs@.take(i as int), ys@.take(i as int)),
                    decreases n - i,
                {
                    proof {
                        lemma_items_eq_step(xs@, ys@, i as int);
                        assert(decreases_to!(*xs => xs[i as int]));
                    }
                    if !xs[i].equals(&ys[i]) {
                        proof {
                            assert(!items_eq(xs@.take(i + 1), ys@.take(i + 1)));
                            lemma_items_eq_prefix(xs@, ys@, i + 1);
                        }
                        return false;
                    }
                    i = i + 1;
                }
                proof {
                    assert(xs@.take(n as int) =~= xs@);
                    assert(ys@.take(n as int) =~= ys@);
                }
                true
            },
            (JsonValue::Object(xs), JsonValue::Object(ys)) => {
                proof {
                    lemma_members_eq_len(xs@, ys@);
                }
                if xs.len() != ys.len() {
                    return false;
                }
                let n = xs.len();
                let mut i: usize = 0;
                while i < n
                    invariant
                        n == xs.len(),
                        n == ys.len(),
                        0 <= i <= n,
                        members_eq(xs@.take(i as int), ys@.take(i as int)),
                    decreases n - i,
                {
                    proof {
                        lemma_members_eq_step(xs@, ys@, i as int);
                        assert(decreases_to!(*xs => xs[i as int]));
                    }
                    let same_key = text_eq(xs[i].0.as_str(), ys[i].0.as_str());
                    if !same_key || !xs[i].1.equals(&ys[i].1) {
                        proof {
                            assert(!members_eq(xs@.take(i + 1), ys@.take(i + 1)));
                            lemma_members_eq_prefix(xs@, ys@, i + 1);
                        }
                        return false;
                    }
                    i = i + 1;
                }
                proof {
                    assert(xs@.take(n as int) =~= xs@);
                    assert(ys@.take(n as int) =~= ys@);
                }
                true
            },
            _ => false,
        }
    }
}

/// Equality of whole sequences implies equality of their prefixes.
proof fn lemma_items_eq_prefix(xs: Seq<JsonValue>, ys: Seq<JsonValue>, k: int)
    requires
        0 <= k <= xs.len(),
        xs.len() == ys.len(),
    ensures
        items_eq(xs, ys) ==> items_eq(xs.take(k), ys.take(k)),
    decreases xs.len() - k,
{
    if k < xs.len() {
        lemma_items_eq_prefix(xs, ys, k + 1);
        lemma_items_eq_step(xs, ys, k);
    } else {
        assert(xs.take(k) =~= xs);
        assert(ys.take(k) =~= ys);
    }
}

/// Equality of whole member lists implies equality of their prefixes.
proof fn lemma_members_eq_prefix(xs: Seq<(String, JsonValue)>, ys: Seq<(String, JsonValue)>, k: int)
    requires
        0 <= k <= xs.len(),
        xs.len() == ys.len(),
    ensures
        members_eq(xs, ys) ==> members_eq(xs.take(k), ys.take(k)),
    decreases xs.len() - k,
{
    if k < xs.len() {
        lemma_members_eq_prefix(xs, ys, k + 1);
        lemma_members_eq_step(xs, ys, k);
    } else {
        assert(xs.take(k) =~= xs);
        assert(ys.take(k) =~= ys);
    }
}

} // verus!
