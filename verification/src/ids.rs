//! Entity identifiers.
//!
//! An identifier is a UUID, kept as the 128-bit number whose big-endian
//! bytes are the UUID's bytes (`Uuid::as_u128`). The uuid crate draws new
//! identifiers and reads them from text; their text form is stated here.
use vstd::arithmetic::power::pow;
use vstd::prelude::*;

verus! {

/// The lower-case hexadecimal digit for `d` (0 to 15).
pub open spec fn hex_digit(d: int) -> char {
    if d < 10 {
        (('0' as int) + d) as char
    } else {
        (('a' as int) + d - 10) as char
    }
}

/// The text of one lower-case hexadecimal digit.
pub(crate) fn hex_digit_text(d: u64) -> (s: &'static str)
    requires
        d < 16,
    ensures
        s@ == seq![hex_digit(d as int)],
{
    match d {
        0 => {
            proof {
                reveal_strlit("0");
            }
            "0"
        },
        1 => {
            proof {
                reveal_strlit("1");
            }
            "1"
        },
        2 => {
            proof {
                reveal_strlit("2");
            }
            "2"
        },
        3 => {
            proof {
                reveal_strlit("3");
            }
            "3"
        },
        4 => {
            proof {
                reveal_strlit("4");
            }
            "4"
        },
        5 => {
            proof {
                reveal_strlit("5");
            }
            "5"
        },
        6 => {
            proof {
                reveal_strlit("6");
            }
            "6"
        },
        7 => {
            proof {
                reveal_strlit("7");
            }
            "7"
        },
        8 => {
            proof {
                reveal_strlit("8");
            }
            "8"
        },
        9 => {
            proof {
                reveal_strlit("9");
            }
            "9"
        },
        10 => {
            proof {
                reveal_strlit("a");
            }
            "a"
        },
        11 => {
            proof {
                reveal_strlit("b");
            }
            "b"
        },
        12 => {
            proof {
                reveal_strlit("c");
            }
            "c"
        },
        13 => {
            proof {
                reveal_strlit("d");
            }
            "d"
        },
        14 => {
            proof {
                reveal_strlit("e");
            }
            "e"
        },
        _ => {
            proof {
                reveal_strlit("f");
            }
            "f"
        },
    }
}

/// The `k`-th hexadecimal digit of `v`, counted from the most significant
/// of its 32 digits.
pub open spec fn uuid_nibble(v: u128, k: int) -> int {
    (v as int / pow(16, (31 - k) as nat)) % 16
}

/// Where a character of the hyphenated form falls among the 32 digits.
pub open spec fn uuid_digit_index(i: int) -> int {
    if i > 23 {
        i - 4
    } else if i > 18 {
        i - 3
    } else if i > 13 {
        i - 2
    } else if i > 8 {
        i - 1
    } else {
        i
    }
}

/// Whether position `i` of the hyphenated form holds a hyphen.
pub open spec fn uuid_hyphen_at(i: int) -> bool {
    i == 8 || i == 13 || i == 18 || i == 23
}

/// The hyphenated lower-case text of an identifier, such as
/// `67e55044-10b1-426f-9247-bb680e5fe0c8`: 32 hexadecimal digits, most
/// significant first, in groups of 8, 4, 4, 4 and 12.
pub open spec fn uuid_text(v: u128) -> Seq<char> {
    Seq::new(
        36,
        |i: int|
            if uuid_hyphen_at(i) {
                '-'
            } else {
                hex_digit(uuid_nibble(v, uuid_digit_index(i)))
            },
    )
}

/// The identifier that the uuid crate's `Uuid::parse_str` reads from a
/// text, or `None` where it refuses the text.
pub uninterp spec fn uuid_value(text: Seq<char>) -> Option<u128>;

/// Whether an identifier carries the marks of a random (version 4) UUID:
/// version nibble 4 and the RFC 4122 variant bits `10`.
pub open spec fn is_random_uuid(v: u128) -> bool {
    &&& (v as int / pow(2, 76)) % 16 == 4
    &&& (v as int / pow(2, 62)) % 4 == 2
}

/// Draws a new identifier: calls the uuid crate's `Uuid::new_v4`.
///
/// Claims that the identifier has the version and variant bits that
/// `new_v4` sets on the random bits; which identifier comes back is chance.
#[verifier::external_body]
pub(crate) fn new_id() -> (id: u128)
    ensures
        is_random_uuid(id),
{
    uuid::Uuid::new_v4().as_u128()
}

/// Writes an identifier as text: calls the uuid crate's `to_string` on the
/// `Uuid`, whose `Display` writes the hyphenated lower-case form.
///
/// Claims that the text is that form, and that `Uuid::parse_str` reads the
/// identifier back from it (`parse_hyphenated` takes exactly those 36
/// characters).
#[verifier::external_body]
fn uuid_string(id: u128) -> (s: String)
    ensures
        s@ == uuid_text(id),
        uuid_value(s@) == Some(id),
{
    uuid::Uuid::from_u128(id).to_string()
}

/// Reads an identifier from text: calls the uuid crate's `Uuid::parse_str`.
///
/// Claims that the result is `uuid_value` of the text.
#[verifier::external_body]
fn uuid_parse(s: &str) -> (r: Option<u128>)
    ensures
        r == uuid_value(s@),
{
    match uuid::Uuid::parse_str(s) {
        Ok(u) => Some(u.as_u128()),
        Err(_) => None,
    }
}

/// The text of an identifier, as the database stores it.
pub fn id_text(id: u128) -> (s: String)
    ensures
        s@ == uuid_text(id),
        uuid_value(s@) == Some(id),
{
    uuid_string(id)
}

/// The identifier written in a text, if the text is one.
pub fn parse_id(s: &str) -> (r: Option<u128>)
    ensures
        r == uuid_value(s@),
{
    uuid_parse(s)
}

} // verus!
