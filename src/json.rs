use vstd::prelude::*;
use crate::error::CodecError;
use crate::uint::{decimal_text, decimal_value, is_decimal};

verus! {

/// A value of the text format that carries every message: the shapes that
/// the codecs of this crate read and write.
#[derive(Debug)]
pub enum Json {
    Null,
    Bool(bool),
    /// A number, as it is written.
    Number(String),
    Text(String),
    Array(Vec<Json>),
    /// Members in the order they are written.
    Object(Vec<(String, Json)>),
}

/// The `u64` that number text spells, if it is a run of decimal digits
/// whose number fits.
pub open spec fn u64_text(t: Seq<char>) -> Option<u64> {
    if is_decimal(t) && decimal_value(t) <= u64::MAX {
        Some(decimal_value(t) as u64)
    } else {
        None
    }
}

/// The `u64` that a value holds, if it is such a number.
pub open spec fn u64_of(j: Json) -> Option<u64> {
    match j {
        Json::Number(t) => u64_text(t@),
        _ => None,
    }
}

/// Relies on `str::parse::<u64>` of std: on a run of decimal digits it gives
/// the number they spell, and an error where that number does not fit.
#[verifier::external_body]
fn parse_u64(s: &str) -> (r: Option<u64>)
    requires
        is_decimal(s@),
    ensures
        match r {
            Some(v) => decimal_value(s@) <= u64::MAX && v == decimal_value(s@),
            None => decimal_value(s@) > u64::MAX,
        },
{
    match s.parse::<u64>() {
        Ok(v) => Some(v),
        Err(_) => None,
    }
}

/// Relies on `ToString` for `u64` of std: the number in decimal, without
/// leading zeros.
#[verifier::external_body]
fn format_u64(v: u64) -> (r: String)
    ensures
        r@ == decimal_text(v as nat),
{
    v.to_string()
}

/// Reads a `u64` from a value.
pub fn read_u64(j: &Json) -> (r: Option<u64>)
    ensures
        r == u64_of(*j),
{
    match j {
        Json::Number(t) => {
            if crate::uint::all_digits(t.as_str()) {
                parse_u64(t.as_str())
            } else {
                None
            }
        },
        _ => None,
    }
}

/// Writes a `u64` as a value.
pub fn write_u64(v: u64) -> (r: Json)
    ensures
        r matches Json::Number(t) && t@ == decimal_text(v as nat),
{
    Json::Number(format_u64(v))
}

/// The value of the first member named `key`, if any.
pub open spec fn member_of(members: Seq<(String, Json)>, key: Seq<char>) -> Option<Json>
    decreases members.len(),
{
    if members.len() == 0 {
        None
    } else if members[0].0@ == key {
        Some(members[0].1)
    } else {
        member_of(members.drop_first(), key)
    }
}

/// The value of the first member named `key` of an object; `None` for a
/// value that is not an object.
pub open spec fn object_member(j: Json, key: Seq<char>) -> Option<Json> {
    match j {
        Json::Object(members) => member_of(members@, key),
        _ => None,
    }
}

/// The text of the discriminant member `kind` of an object, if it has one.
pub open spec fn tag_of(j: Json) -> Option<Seq<char>> {
    match j {
        Json::Object(members) => match member_of(members@, "kind"@) {
            Some(Json::Text(t)) => Some(t@),
            _ => None,
        },
        _ => None,
    }
}

/// The value of the first member named `key` of an object.
pub fn member<'a>(members: &'a Vec<(String, Json)>, key: &str) -> (r: Option<&'a Json>)
    ensures
        match member_of(members@, key@) {
            Some(v) => r == Some(&v),
            None => r is None,
        },
{
    let mut i: usize = 0;
    assert(members@.subrange(0, members@.len() as int) =~= members@);
    while i < members.len()
        invariant
            i <= members@.len(),
            member_of(members@, key@) == member_of(members@.subrange(i as int, members@.len() as int), key@),
        decreases members@.len() - i,
    {
        proof {
            let rest = members@.subrange(i as int, members@.len() as int);
            assert(rest.drop_first() =~= members@.subrange(i + 1, members@.len() as int));
        }
        if crate::wire::str_eq(members[i].0.as_str(), key) {
            return Some(&members[i].1);
        }
        i = i + 1;
    }
    None
}

/// The value of the first member named `key` of an object.
pub fn get_member<'a>(j: &'a Json, key: &str) -> (r: Option<&'a Json>)
    ensures
        match object_member(*j, key@) {
            Some(v) => r == Some(&v),
            None => r is None,
        },
{
    match j {
        Json::Object(members) => member(members, key),
        _ => None,
    }
}

/// The text of the discriminant member `kind`; its absence, or a value that
/// is not text, is a missing field.
pub fn read_tag(j: &Json) -> (r: Result<&str, CodecError>)
    ensures
        match tag_of(*j) {
            Some(t) => r matches Ok(s) && s@ == t,
            None => r matches Err(CodecError::MissingRequiredField(f)) && f@ == "kind"@,
        },
{
    match j {
        Json::Object(members) => match member(members, "kind") {
            Some(Json::Text(t)) => Ok(t.as_str()),
            _ => Err(CodecError::MissingRequiredField("kind".to_string())),
        },
        _ => Err(CodecError::MissingRequiredField("kind".to_string())),
    }
}

} // verus!
