//! Feeding identifiers, texts and JSON documents to std's `DefaultHasher`.
//!
//! vstd models a `DefaultHasher` by the sequence of byte strings written to
//! it, and `finish` as a function of that sequence. The writes made here
//! follow the `Hash` impls of the values they stand for, on a 64-bit
//! little-endian machine (where `usize`, `isize` and `u64` are written as
//! their eight little-endian bytes), fixed so that every machine writes the
//! same bytes:
//! - an identifier, as uuid's `Uuid` hashes: its 16 bytes, most
//!   significant first;
//! - a text, as `str` hashes in std: its UTF-8 bytes, then the byte `0xff`;
//! - a JSON document, as serde_json's `Value` hashes: the variant's index,
//!   then a boolean as one byte, a number as the 64-bit word of its value
//!   (a float by its bits, with both zeros as `+0.0`), a string as a text,
//!   an array as its length and its items, an object as its length and each
//!   member's key and value in key order.
//!
//! Documents that serde_json holds equal therefore write the same bytes.
use crate::json::{is_zero_bits, items_eq, json_eq, members_eq, number_eq, JsonNumber, JsonValue};
use std::collections::hash_map::DefaultHasher;
use std::hash::Hasher;
use vstd::bytes::{spec_u128_to_le_bytes, spec_u64_to_le_bytes, u128_to_le_bytes, u64_to_le_bytes};
use vstd::prelude::*;
use vstd::utf8::encode_utf8;

verus! {

/// The bytes written for a 64-bit word: little-endian.
pub open spec fn word_bytes(x: u64) -> Seq<u8> {
    spec_u64_to_le_bytes(x)
}

/// The bytes written for an identifier: its UUID bytes, most significant
/// first.
pub open spec fn id_bytes(v: u128) -> Seq<u8> {
    spec_u128_to_le_bytes(v).reverse()
}

/// The writes for a text: its UTF-8 bytes, then `0xff`.
pub open spec fn text_writes(s: Seq<char>) -> Seq<Seq<u8>> {
    seq![encode_utf8(s), seq![0xffu8]]
}

/// The word written for a number: its value as 64 bits, a float by its
/// bits, with both zeros written as `+0.0`.
pub open spec fn number_word(n: JsonNumber) -> u64 {
    match n {
        JsonNumber::PosInt(x) => x,
        JsonNumber::NegInt(x) => x as u64,
        JsonNumber::Float(b) => if is_zero_bits(b) {
            0
        } else {
            b
        },
    }
}

/// The writes for a JSON document.
pub open spec fn json_writes(v: JsonValue) -> Seq<Seq<u8>>
    decreases v,
{
    match v {
        JsonValue::Null => seq![word_bytes(0)],
        JsonValue::Bool(b) => seq![word_bytes(1), seq![if b { 1u8 } else { 0u8 }]],
        JsonValue::Number(n) => seq![word_bytes(2), word_bytes(number_word(n))],
        JsonValue::String(s) => seq![word_bytes(3)] + text_writes(s@),
        JsonValue::Array(xs) => seq![word_bytes(4), word_bytes(xs@.len() as u64)] + items_writes(xs@),
        JsonValue::Object(ms) => seq![word_bytes(5), word_bytes(ms@.len() as u64)] + members_writes(
            ms@,
        ),
    }
}

/// The writes for a sequence of documents, one after another.
pub open spec fn items_writes(xs: Seq<JsonValue>) -> Seq<Seq<u8>>
    decreases xs,
{
    if xs.len() == 0 {
        Seq::empty()
    } else {
        items_writes(xs.drop_last()) + json_writes(xs.last())
    }
}

/// The writes for a member list: each key, then its value.
pub open spec fn members_writes(ms: Seq<(String, JsonValue)>) -> Seq<Seq<u8>>
    decreases ms,
{
    if ms.len() == 0 {
        Seq::empty()
    } else {
        members_writes(ms.drop_last()) + text_writes(ms.last().0@) + json_writes(ms.last().1)
    }
}

/// Writes a 64-bit word.
pub fn write_word(h: &mut DefaultHasher, x: u64)
    ensures
        final(h)@ == old(h)@.push(word_bytes(x)),
{
    let bytes = u64_to_le_bytes(x);
    h.write(bytes.as_slice());
}

/// Writes a text.
pub fn write_text(h: &mut DefaultHasher, s: &str)
    ensures
        final(h)@ == old(h)@ + text_writes(s@),
{
    let ghost start = h@;
    h.write(s.as_bytes());
    let end: Vec<u8> = vec![0xffu8];
    h.write(end.as_slice());
    proof {
        assert(end@ =~= seq![0xffu8]);
        assert(h@ =~= start + text_writes(s@));
    }
}

/// Writes an identifier.
pub fn write_id(h: &mut DefaultHasher, v: u128)
    ensures
        final(h)@ == old(h)@.push(id_bytes(v)),
{
    let le = u128_to_le_bytes(v);
    let mut be: Vec<u8> = Vec::new();
    let mut j: usize = 0;
    while j < 16
        invariant
            le@.len() == 16,
            le@ == spec_u128_to_le_bytes(v),
            0 <= j <= 16,
            be@.len() == j,
            forall|k: int| 0 <= k < j ==> be@[k] == le@[15 - k],
        decreases 16 - j,
    {
        be.push(le[15 - j]);
        j = j + 1;
    }
    proof {
        assert(be@ =~= le@.reverse());
    }
    h.write(be.as_slice());
}

proof fn lemma_items_writes_step(xs: Seq<JsonValue>, i: int)
    requires
        0 <= i < xs.len(),
    ensures
        items_writes(xs.take(i + 1)) == items_writes(xs.take(i)) + json_writes(xs[i]),
{
    assert(xs.take(i + 1).drop_last() =~= xs.take(i));
}

proof fn lemma_members_writes_step(ms: Seq<(String, JsonValue)>, i: int)
    requires
        0 <= i < ms.len(),
    ensures
        members_writes(ms.take(i + 1)) == members_writes(ms.take(i)) + text_writes(ms[i].0@)
            + json_writes(ms[i].1),
{
    assert(ms.take(i + 1).drop_last() =~= ms.take(i));
}

/// Writes a JSON document.
#[verifier::loop_isolation(false)]
pub fn write_json(h: &mut DefaultHasher, v: &JsonValue)
    ensures
        final(h)@ == old(h)@ + json_writes(*v),
    decreases v,
{
    let ghost before = h@;
    match v {
        JsonValue::Null => {
            write_word(h, 0);
            proof {
                assert(h@ =~= before + json_writes(*v));
            }
        },
        JsonValue::Bool(b) => {
            write_word(h, 1);
            let byte: Vec<u8> = if *b {
                vec![1u8]
            } else {
                vec![0u8]
            };
            h.write(byte.as_slice());
            proof {
                assert(byte@ =~= seq![if *b { 1u8 } else { 0u8 }]);
                assert(h@ =~= before + json_writes(*v));
            }
        },
        JsonValue::Number(n) => {
            write_word(h, 2);
            let word: u64 = match n {
                JsonNumber::PosInt(x) => *x,
                JsonNumber::NegInt(x) => *x as u64,
                JsonNumber::Float(b) => if *b == 0 || *b == 0x8000_0000_0000_0000u64 {
                    0
                } else {
                    *b
                },
            };
            write_word(h, word);
            proof {
                assert(h@ =~= before + json_writes(*v));
            }
        },
        JsonValue::String(s) => {
            write_word(h, 3);
            write_text(h, s.as_str());
            proof {
                assert(h@ =~= before + json_writes(*v));
            }
        },
        JsonValue::Array(xs) => {
            write_word(h, 4);
            write_word(h, xs.len() as u64);
            let ghost start = h@;
            let mut i: usize = 0;
            while i < xs.len()
                invariant
                    0 <= i <= xs.len(),
                    h@ == start + items_writes(xs@.take(i as int)),
                decreases xs.len() - i,
            {
                proof {
                    assert(decreases_to!(*xs => xs[i as int]));
                    lemma_items_writes_step(xs@, i as int);
                }
                write_json(h, &xs[i]);
                proof {
                    assert(h@ =~= start + items_writes(xs@.take(i + 1)));
                }
                i = i + 1;
            }
            proof {
                assert(xs@.take(xs.len() as int) =~= xs@);
                assert(h@ =~= before + json_writes(*v));
            }
        },
        JsonValue::Object(ms) => {
            write_word(h, 5);
            write_word(h, ms.len() as u64);
            let ghost start = h@;
            let mut i: usize = 0;
            while i < ms.len()
                invariant
                    0 <= i <= ms.len(),
                    h@ == start + members_writes(ms@.take(i as int)),
                decreases ms.len() - i,
            {
                proof {
                    assert(decreases_to!(*ms => ms[i as int]));
                    lemma_members_writes_step(ms@, i as int);
                }
                write_text(h, ms[i].0.as_str());
                write_json(h, &ms[i].1);
                proof {
                    assert(h@ =~= start + members_writes(ms@.take(i + 1)));
                }
                i = i + 1;
            }
            proof {
                assert(ms@.take(ms.len() as int) =~= ms@);
                assert(h@ =~= before + json_writes(*v));
            }
        },
    }
}

/// Documents equal as serde_json compares them write the same bytes: so a
/// float written as `0.0` and one written as `-0.0` hash alike.
pub proof fn equal_documents_write_alike(a: JsonValue, b: JsonValue)
    requires
        json_eq(a, b),
    ensures
        json_writes(a) == json_writes(b),
    decreases a,
{
    match a {
        JsonValue::Number(x) => {
            if let JsonValue::Number(y) = b {
                assert(number_eq(x, y));
                assert(number_word(x) == number_word(y));
            }
        },
        JsonValue::Array(xs) => {
            if let JsonValue::Array(ys) = b {
                equal_items_write_alike(xs@, ys@);
            }
        },
        JsonValue::Object(xs) => {
            if let JsonValue::Object(ys) = b {
                equal_members_write_alike(xs@, ys@);
            }
        },
        _ => {},
    }
}

/// Sequences of equal documents write the same bytes.
pub proof fn equal_items_write_alike(xs: Seq<JsonValue>, ys: Seq<JsonValue>)
    requires
        items_eq(xs, ys),
    ensures
        items_writes(xs) == items_writes(ys),
        xs.len() == ys.len(),
    decreases xs,
{
    if xs.len() > 0 {
        equal_items_write_alike(xs.drop_last(), ys.drop_last());
        equal_documents_write_alike(xs.last(), ys.last());
    }
}

/// Equal member lists write the same bytes.
pub proof fn equal_members_write_alike(xs: Seq<(String, JsonValue)>, ys: Seq<(String, JsonValue)>)
    requires
        members_eq(xs, ys),
    ensures
        members_writes(xs) == members_writes(ys),
        xs.len() == ys.len(),
    decreases xs,
{
    if xs.len() > 0 {
        equal_members_write_alike(xs.drop_last(), ys.drop_last());
        equal_documents_write_alike(xs.last().1, ys.last().1);
    }
}

} // verus!
