//! JSON documents as the library sees them, and the field rules of the wire
//! format: camelCase keys, amounts as strings, timestamps in either form,
//! and optional fields left out rather than written as `null`.
use vstd::prelude::*;

use crate::decimal::{decode_decimal, decode_spec, encode_decimal, decimal_text, Decimal, DecodeError};
use crate::text::chars_of;
use crate::timestamp::{decode_timestamp, timestamp_reading, Timestamp};

verus! {

/// A JSON value. A number keeps the text it was written with, so an amount
/// such as `100.10` is never rounded through a float.
#[derive(Debug)]
pub enum Json {
    Null,
    Bool(bool),
    Number(String),
    Str(String),
    Array(Vec<Json>),
    Object(Vec<(String, Json)>),
}

#[verifier::external_type_specification]
#[verifier::external_body]
pub struct ExValue(serde_json::Value);

/// What serde_json reads from a text, as a [`Json`] value.
pub uninterp spec fn json_reading(text: Seq<char>) -> Option<Json>;

/// The text that serde_json writes for a [`Json`] value.
pub uninterp spec fn json_text(doc: Json) -> Seq<char>;

/// Moves a serde_json value into the library's [`Json`], member by member.
#[verifier::external_body]
fn json_from_value(v: serde_json::Value) -> Json {
    match v {
        serde_json::Value::Null => Json::Null,
        serde_json::Value::Bool(b) => Json::Bool(b),
        serde_json::Value::Number(n) => Json::Number(n.to_string()),
        serde_json::Value::String(s) => Json::Str(s),
        serde_json::Value::Array(a) => Json::Array(a.into_iter().map(json_from_value).collect()),
        serde_json::Value::Object(m) => Json::Object(m.into_iter().map(|(k, v)| (k, json_from_value(v))).collect()),
    }
}

/// Moves a [`Json`] value into a serde_json value, member by member. A number
/// keeps its text. A number text that serde_json cannot read becomes `null`;
/// the library writes only canonical decimal texts, which it always reads.
#[verifier::external_body]
fn value_of_json(doc: &Json) -> serde_json::Value {
    match doc {
        Json::Null => serde_json::Value::Null,
        Json::Bool(b) => serde_json::Value::Bool(*b),
        Json::Number(t) => t.parse::<serde_json::Number>().map(serde_json::Value::Number).unwrap_or(serde_json::Value::Null),
        Json::Str(s) => serde_json::Value::String(s.clone()),
        Json::Array(a) => serde_json::Value::Array(a.iter().map(value_of_json).collect()),
        Json::Object(m) => serde_json::Value::Object(m.iter().map(|(k, v)| (k.clone(), value_of_json(v))).collect()),
    }
}

/// Relies on `serde_json::from_str` into a `serde_json::Value`: the result
/// depends on the text alone, and is absent when the text is not JSON.
#[verifier::external_body]
fn parse_json(text: &str) -> (r: Option<Json>)
    ensures
        r == json_reading(text@),
{
    serde_json::from_str::<serde_json::Value>(text).ok().map(json_from_value)
}

/// Relies on `serde_json::to_string` of a `serde_json::Value`, which does not fail.
#[verifier::external_body]
fn render_json(doc: &Json) -> (r: String)
    ensures
        r@ == json_text(*doc),
{
    serde_json::to_string(&value_of_json(doc)).unwrap_or_default()
}

/// Reads a JSON document; nothing when the text is not JSON.
pub fn read_document(text: &str) -> (r: Option<Json>)
    ensures
        r == json_reading(text@),
{
    parse_json(text)
}

/// Writes a JSON document as text.
pub fn write_document(doc: &Json) -> (r: String)
    ensures
        r@ == json_text(*doc),
{
    render_json(doc)
}

/// The value of the first member named `key`.
pub open spec fn lookup(members: Seq<(String, Json)>, key: Seq<char>) -> Option<Json>
    decreases members.len(),
{
    if members.len() == 0 {
        None
    } else if members[0].0@ == key {
        Some(members[0].1)
    } else {
        lookup(members.drop_first(), key)
    }
}

/// The member `key` of an object; nothing for any other value.
pub open spec fn member(doc: Json, key: Seq<char>) -> Option<Json> {
    match doc {
        Json::Object(ms) => lookup(ms@, key),
        _ => None,
    }
}

/// Whether two strings hold the same characters.
pub fn same_text(a: &str, b: &str) -> (r: bool)
    ensures
        r == (a@ == b@),
{
    let x = chars_of(a);
    let y = chars_of(b);
    if x.len() != y.len() {
        return false;
    }
    let mut i: usize = 0;
    while i < x.len()
        invariant
            i <= x.len(),
            x.len() == y.len(),
            x@ == a@,
            y@ == b@,
            forall|k: int| 0 <= k < i ==> x@[k] == y@[k],
        decreases x.len() - i,
    {
        if x[i] != y[i] {
            return false;
        }
        i = i + 1;
    }
    assert(x@ =~= y@);
    true
}

/// The member `key` of `doc`, when `doc` is an object that has one.
pub fn get_member<'a>(doc: &'a Json, key: &str) -> (r: Option<&'a Json>)
    ensures
        match r {
            Some(v) => member(*doc, key@) == Some(*v),
            None => member(*doc, key@) is None,
        },
{
    match doc {
        Json::Object(ms) => {
            let mut i: usize = 0;
            assert(ms@.subrange(0, ms@.len() as int) =~= ms@);
            while i < ms.len()
                invariant
                    i <= ms.len(),
                    member(*doc, key@) == lookup(ms@, key@),
                    lookup(ms@, key@) == lookup(ms@.subrange(i as int, ms@.len() as int), key@),
                decreases ms.len() - i,
            {
                let ghost rest = ms@.subrange(i as int, ms@.len() as int);
                assert(rest.drop_first() =~= ms@.subrange(i + 1, ms@.len() as int));
                assert(rest[0] == ms@[i as int]);
                if same_text(ms[i].0.as_str(), key) {
                    assert(rest[0].0@ == key@);
                    assert(lookup(rest, key@) == Some(rest[0].1));
                    return Some(&ms[i].1);
                }
                i = i + 1;
            }
            None
        },
        _ => None,
    }
}

/// Takes the member `key` out of `doc`, when `doc` is an object that has one.
pub fn take_member(doc: Json, key: &str) -> (r: Option<Json>)
    ensures
        r == member(doc, key@),
{
    match doc {
        Json::Object(ms) => {
            let ghost all = ms@;
            let mut ms = ms;
            let mut i: usize = 0;
            assert(all.subrange(0, all.len() as int) =~= all);
            while i < ms.len()
                invariant
                    i <= ms.len(),
                    ms@ == all,
                    member(doc, key@) == lookup(all, key@),
                    lookup(all, key@) == lookup(all.subrange(i as int, all.len() as int), key@),
                decreases ms.len() - i,
            {
                let ghost rest = all.subrange(i as int, all.len() as int);
                assert(rest.drop_first() =~= all.subrange(i + 1, all.len() as int));
                assert(rest[0] == all[i as int]);
                if same_text(ms[i].0.as_str(), key) {
                    assert(rest[0].0@ == key@);
                    assert(lookup(rest, key@) == Some(rest[0].1));
                    let (_, v) = ms.swap_remove(i);
                    return Some(v);
                }
                i = i + 1;
            }
            None
        },
        _ => None,
    }
}

pub open spec fn is_null_or_absent(m: Option<Json>) -> bool {
    m is None || m == Some(Json::Null)
}

/// A required field holds `v` as read by `read`.
pub open spec fn field_is<T>(m: Option<Json>, read: spec_fn(Json) -> Result<T, DecodeError>, v: T) -> bool {
    m matches Some(j) && read(j) == Ok::<T, DecodeError>(v)
}

/// An optional field is absent or `null` exactly when `v` is `None`, and
/// otherwise holds the value of `v` as read by `read`.
pub open spec fn opt_field_is<T>(
    m: Option<Json>,
    read: spec_fn(Json) -> Result<T, DecodeError>,
    v: Option<T>,
) -> bool {
    match v {
        None => is_null_or_absent(m),
        Some(x) => !is_null_or_absent(m) && field_is(m, read, x),
    }
}

/// A required field holds a value that `holds` relates to `v`.
pub open spec fn field_holds<T>(m: Option<Json>, holds: spec_fn(Json, T) -> bool, v: T) -> bool {
    m matches Some(j) && holds(j, v)
}

/// An optional field is absent or `null` exactly when `v` is `None`, and
/// otherwise holds a value that `holds` relates to the value of `v`.
pub open spec fn opt_field_holds<T>(m: Option<Json>, holds: spec_fn(Json, T) -> bool, v: Option<T>) -> bool {
    match v {
        None => is_null_or_absent(m),
        Some(x) => !is_null_or_absent(m) && field_holds(m, holds, x),
    }
}

/// A field holds an array whose elements `holds` relates, one by one, to `vs`.
pub open spec fn list_holds<T>(m: Option<Json>, holds: spec_fn(Json, T) -> bool, vs: Seq<T>) -> bool {
    m matches Some(Json::Array(a)) && a@.len() == vs.len() && forall|i: int|
        0 <= i < vs.len() ==> #[trigger] holds(a@[i], vs[i])
}

/// A field that may be missing holds an array as [`list_holds`] says, or is
/// missing and `vs` is empty.
pub open spec fn list_or_empty_holds<T>(m: Option<Json>, holds: spec_fn(Json, T) -> bool, vs: Seq<T>) -> bool {
    if m is None {
        vs.len() == 0
    } else {
        list_holds(m, holds, vs)
    }
}

pub open spec fn string_value(j: Json) -> Result<String, DecodeError> {
    match j {
        Json::Str(s) => Ok(s),
        _ => Err(DecodeError::MalformedResponse),
    }
}

pub open spec fn bool_value(j: Json) -> Result<bool, DecodeError> {
    match j {
        Json::Bool(b) => Ok(b),
        _ => Err(DecodeError::MalformedResponse),
    }
}

/// A decimal written as a JSON string, the form amounts take on the wire.
pub open spec fn decimal_string_value(j: Json) -> Result<Decimal, DecodeError> {
    match j {
        Json::Str(s) => decode_spec(s@),
        _ => Err(DecodeError::MalformedResponse),
    }
}

/// A decimal written as a JSON number.
pub open spec fn decimal_number_value(j: Json) -> Result<Decimal, DecodeError> {
    match j {
        Json::Number(t) => decode_spec(t@),
        _ => Err(DecodeError::MalformedResponse),
    }
}

/// A whole JSON number within `lo..=hi`.
pub open spec fn integer_value(j: Json, lo: int, hi: int) -> Result<int, DecodeError> {
    match j {
        Json::Number(t) => match decode_spec(t@) {
            Ok(d) => if d.scale == 0 && lo <= d.mantissa <= hi {
                Ok(d.mantissa as int)
            } else {
                Err(DecodeError::MalformedResponse)
            },
            Err(_) => Err(DecodeError::MalformedResponse),
        },
        _ => Err(DecodeError::MalformedResponse),
    }
}

pub open spec fn i32_value(j: Json) -> Result<i32, DecodeError> {
    match integer_value(j, i32::MIN as int, i32::MAX as int) {
        Ok(n) => Ok(n as i32),
        Err(e) => Err(e),
    }
}

pub open spec fn u32_value(j: Json) -> Result<u32, DecodeError> {
    match integer_value(j, 0, u32::MAX as int) {
        Ok(n) => Ok(n as u32),
        Err(e) => Err(e),
    }
}

pub open spec fn u8_value(j: Json) -> Result<u8, DecodeError> {
    match integer_value(j, 0, u8::MAX as int) {
        Ok(n) => Ok(n as u8),
        Err(e) => Err(e),
    }
}

pub open spec fn timestamp_value(j: Json) -> Result<Timestamp, DecodeError> {
    match j {
        Json::Str(s) => timestamp_reading(s@),
        _ => Err(DecodeError::MalformedResponse),
    }
}

pub fn read_string(j: &Json) -> (r: Result<String, DecodeError>)
    ensures
        r == string_value(*j),
{
    match j {
        Json::Str(s) => Ok(s.clone()),
        _ => Err(DecodeError::MalformedResponse),
    }
}

pub fn read_bool(j: &Json) -> (r: Result<bool, DecodeError>)
    ensures
        r == bool_value(*j),
{
    match j {
        Json::Bool(b) => Ok(*b),
        _ => Err(DecodeError::MalformedResponse),
    }
}

/// Reads an amount written as a string, such as `"123.45"`.
pub fn read_decimal_string(j: &Json) -> (r: Result<Decimal, DecodeError>)
    ensures
        r == decimal_string_value(*j),
{
    match j {
        Json::Str(s) => decode_decimal(s.as_str()),
        _ => Err(DecodeError::MalformedResponse),
    }
}

pub fn read_decimal_number(j: &Json) -> (r: Result<Decimal, DecodeError>)
    ensures
        r == decimal_number_value(*j),
{
    match j {
        Json::Number(t) => decode_decimal(t.as_str()),
        _ => Err(DecodeError::MalformedResponse),
    }
}

fn read_integer(j: &Json, lo: i64, hi: i64) -> (r: Result<i64, DecodeError>)
    ensures
        match integer_value(*j, lo as int, hi as int) {
            Ok(n) => r == Ok::<i64, DecodeError>(n as i64),
            Err(e) => r == Err::<i64, DecodeError>(e),
        },
{
    match j {
        Json::Number(t) => match decode_decimal(t.as_str()) {
            Ok(d) => if d.scale == 0 && lo <= d.mantissa && d.mantissa <= hi {
                Ok(d.mantissa)
            } else {
                Err(DecodeError::MalformedResponse)
            },
            Err(_) => Err(DecodeError::MalformedResponse),
        },
        _ => Err(DecodeError::MalformedResponse),
    }
}

pub fn read_i32(j: &Json) -> (r: Result<i32, DecodeError>)
    ensures
        r == i32_value(*j),
{
    match read_integer(j, i32::MIN as i64, i32::MAX as i64) {
        Ok(n) => Ok(n as i32),
        Err(e) => Err(e),
    }
}

pub fn read_u32(j: &Json) -> (r: Result<u32, DecodeError>)
    ensures
        r == u32_value(*j),
{
    match read_integer(j, 0, u32::MAX as i64) {
        Ok(n) => Ok(n as u32),
        Err(e) => Err(e),
    }
}

pub fn read_u8(j: &Json) -> (r: Result<u8, DecodeError>)
    ensures
        r == u8_value(*j),
{
    match read_integer(j, 0, u8::MAX as i64) {
        Ok(n) => Ok(n as u8),
        Err(e) => Err(e),
    }
}

/// Reads a timestamp written as RFC 3339 or as a bare date.
pub fn read_timestamp(j: &Json) -> (r: Result<Timestamp, DecodeError>)
    ensures
        r == timestamp_value(*j),
        r matches Ok(t) ==> t.wf(),
{
    match j {
        Json::Str(s) => decode_timestamp(s.as_str()),
        _ => Err(DecodeError::MalformedResponse),
    }
}

pub fn string_json(s: &String) -> (r: Json)
    ensures
        r == Json::Str(*s),
{
    Json::Str(s.clone())
}

/// An amount as the wire writes it: a string holding its canonical text.
pub fn decimal_string_json(d: Decimal) -> (r: Json)
    ensures
        r matches Json::Str(s) && s@ == decimal_text(d),
        decimal_string_value(r) == Ok::<Decimal, DecodeError>(d),
{
    proof {
        crate::decimal::lemma_decimal_round_trip(d);
    }
    Json::Str(encode_decimal(d))
}

/// A decimal written as a JSON number.
pub fn decimal_number_json(d: Decimal) -> (r: Json)
    ensures
        r matches Json::Number(t) && t@ == decimal_text(d),
        decimal_number_value(r) == Ok::<Decimal, DecodeError>(d),
{
    proof {
        crate::decimal::lemma_decimal_round_trip(d);
    }
    Json::Number(encode_decimal(d))
}

/// A whole number written as a JSON number.
pub fn integer_json(n: i64) -> (r: Json)
    ensures
        r matches Json::Number(t) && t@ == decimal_text(Decimal { mantissa: n, scale: 0 }),
        r matches Json::Number(t) && decode_spec(t@) == Ok::<Decimal, DecodeError>(Decimal { mantissa: n, scale: 0 }),
{
    decimal_number_json(Decimal { mantissa: n, scale: 0 })
}

pub open spec fn key_of(m: (String, Json)) -> Seq<char> {
    m.0@
}

/// What `lookup` finds after a member is added at the end: what it found
/// before, or else the new member when its key is the one sought.
pub open spec fn lookup_after_push(ms: Seq<(String, Json)>, m: (String, Json), k: Seq<char>) -> Option<Json> {
    if lookup(ms, k) is Some {
        lookup(ms, k)
    } else if key_of(m) == k {
        Some(m.1)
    } else {
        None
    }
}

pub proof fn lemma_lookup_push(ms: Seq<(String, Json)>, m: (String, Json), k: Seq<char>)
    ensures
        lookup(ms.push(m), k) == lookup_after_push(ms, m, k),
    decreases ms.len(),
{
    if ms.len() > 0 {
        assert(ms.push(m)[0] == ms[0]);
        assert(ms.push(m).drop_first() =~= ms.drop_first().push(m));
        lemma_lookup_push(ms.drop_first(), m, k);
    } else {
        assert(ms.push(m)[0] == m);
        assert(ms.push(m).drop_first() =~= Seq::<(String, Json)>::empty());
        assert(lookup(Seq::<(String, Json)>::empty(), k) is None);
        assert(lookup(ms, k) is None);
    }
}

/// `lookup` in two runs of members put one after the other finds what the
/// first finds, or else what the second finds.
pub proof fn lemma_lookup_concat(a: Seq<(String, Json)>, b: Seq<(String, Json)>, k: Seq<char>)
    ensures
        lookup(a + b, k) == if lookup(a, k) is Some {
            lookup(a, k)
        } else {
            lookup(b, k)
        },
    decreases a.len(),
{
    if a.len() > 0 {
        assert((a + b)[0] == a[0]);
        assert((a + b).drop_first() =~= a.drop_first() + b);
        lemma_lookup_concat(a.drop_first(), b, k);
    } else {
        assert(a + b =~= b);
    }
}

/// Adds the member `key: value` at the end of `members`.
pub fn push_field(members: &mut Vec<(String, Json)>, key: &str, value: Json)
    ensures
        final(members)@.len() == old(members)@.len() + 1,
        final(members)@.drop_last() == old(members)@,
        key_of(final(members)@.last()) == key@,
        final(members)@.last().1 == value,
        forall|k: Seq<char>|
            #[trigger] lookup(final(members)@, k) == if lookup(old(members)@, k) is Some {
                lookup(old(members)@, k)
            } else if k == key@ {
                Some(value)
            } else {
                None
            },
{
    let ghost before = members@;
    members.push((String::from_str(key), value));
    assert(final(members)@.drop_last() =~= old(members)@);
    assert forall|k: Seq<char>| #[trigger] lookup(members@, k) == lookup_after_push(before, members@.last(), k) by {
        assert(members@ =~= before.push(members@.last()));
        lemma_lookup_push(before, members@.last(), k);
    }
}

/// Adds the member `key: value` when there is a value, and nothing at all
/// when there is none: an unset optional field is left out, never written
/// as `null`.
pub fn push_optional(members: &mut Vec<(String, Json)>, key: &str, value: Option<Json>)
    ensures
        value is None ==> final(members)@ == old(members)@,
        value matches Some(v) ==> {
            &&& final(members)@.len() == old(members)@.len() + 1
            &&& final(members)@.drop_last() == old(members)@
            &&& key_of(final(members)@.last()) == key@
            &&& final(members)@.last().1 == v
        },
        forall|k: Seq<char>|
            #[trigger] lookup(final(members)@, k) == if lookup(old(members)@, k) is Some {
                lookup(old(members)@, k)
            } else if k == key@ && value is Some {
                value
            } else {
                None
            },
{
    match value {
        Some(v) => push_field(members, key, v),
        None => {},
    }
}

/// Whether `j` is a JSON object.
pub fn is_object(j: &Json) -> (r: bool)
    ensures
        r == (*j is Object),
{
    match j {
        Json::Object(_) => true,
        _ => false,
    }
}

/// A JSON array of strings, in order.
pub fn strings_json(items: &Vec<String>) -> (r: Json)
    ensures
        r matches Json::Array(a) && a@.len() == items@.len() && forall|i: int|
            0 <= i < items@.len() ==> a@[i] == Json::Str(#[trigger] items@[i]),        strings_read_from(r, items@),
{
    let mut out: Vec<Json> = Vec::new();
    let mut i: usize = 0;
    while i < items.len()
        invariant
            i <= items.len(),
            out@.len() == i,
            forall|k: int| 0 <= k < i ==> out@[k] == Json::Str(#[trigger] items@[k]),
        decreases items.len() - i,
    {
        out.push(string_json(&items[i]));
        i = i + 1;
    }
    assert forall|i: int| 0 <= i < items@.len() implies string_value(#[trigger] out@[i]) == Ok::<String, DecodeError>(
        items@[i],
    ) by {
        assert(out@[i] == Json::Str(items@[i]));
    }
    Json::Array(out)
}

/// `vs` is what the JSON array `j` of strings says, element by element.
pub open spec fn strings_read_from(j: Json, vs: Seq<String>) -> bool {
    list_holds(Some(j), |e: Json, x: String| string_value(e) == Ok::<String, DecodeError>(x), vs)
}

/// Whether the JSON value `j` is an array of strings.
pub open spec fn strings_readable(j: Json) -> bool {
    j matches Json::Array(a) && forall|i: int| 0 <= i < a@.len() ==> #[trigger] string_value(a@[i]) is Ok
}

/// Reads a JSON array of strings.
pub fn read_strings(j: &Json) -> (r: Result<Vec<String>, DecodeError>)
    ensures
        match *j {
            Json::Array(a) => match r {
                Ok(v) => v@.len() == a@.len() && forall|i: int|
                    0 <= i < a@.len() ==> string_value(#[trigger] a@[i]) == Ok::<String, DecodeError>(v@[i]),
                Err(e) => e == DecodeError::MalformedResponse && exists|i: int|
                    0 <= i < a@.len() && #[trigger] string_value(a@[i]) is Err,
            },
            _ => r == Err::<Vec<String>, DecodeError>(DecodeError::MalformedResponse),
        },
        r matches Ok(v) ==> strings_read_from(*j, v@),
        r is Ok <==> strings_readable(*j),
{
    match j {
        Json::Array(a) => {
            let mut out: Vec<String> = Vec::new();
            let mut i: usize = 0;
            while i < a.len()
                invariant
                    i <= a.len(),
                    out@.len() == i,
                    forall|k: int| 0 <= k < i ==> string_value(#[trigger] a@[k]) == Ok::<String, DecodeError>(out@[k]),
                    *j == Json::Array(*a),
                decreases a.len() - i,
            {
                match read_string(&a[i]) {
                    Ok(s) => out.push(s),
                    Err(e) => {
                        assert(string_value(a@[i as int]) is Err);
                        return Err(e);
                    },
                }
                i = i + 1;
            }
            Ok(out)
        },
        _ => Err(DecodeError::MalformedResponse),
    }
}

} // verus!
