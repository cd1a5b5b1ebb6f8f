//! The wire shape of responses, and the tolerant decoder.
//!
//! A response body arrives as a JSON tree. This module holds the
//! library's own value for such a tree and the decoder from it into the
//! decision data model. Decoding is maximally tolerant for the
//! categorical string fields (an unknown spelling never fails) but
//! strict for the structural shape: a missing required string, a value
//! of the wrong kind, or an unreadable timestamp is a `DecodeError`.
//! The service may send `null` instead of an empty decision list; the
//! decoder turns exactly that `null` (not a merely absent field) into an
//! empty sequence.

use vstd::prelude::*;

use crate::errors::Error;
use crate::types::{
    Decision, DecisionType, DecisionV, DecisionsResponse, DecisionsResponseV, Origin, Scope,
    Timestamp, decision_type_of_wire, origin_of_wire, scope_of_wire,
};

verus! {

/// A JSON tree, as much of it as the decision wire format uses: numbers
/// that do not fit an integer are kept apart (no decision field may hold
/// one), and an object is the ordered list of its entries.
#[derive(Debug, PartialEq, Eq)]
pub enum JsonValue {
    Null,
    Bool(bool),
    Int(i64),
    OtherNumber,
    Str(String),
    Arr(Vec<JsonValue>),
    Obj(Vec<(String, JsonValue)>),
}

/// The value under the first entry of `entries` whose key reads `key`,
/// if any.
pub open spec fn lookup(entries: Seq<(String, JsonValue)>, key: Seq<char>) -> Option<JsonValue>
    decreases entries.len(),
{
    if entries.len() == 0 {
        None
    } else if entries[0].0@ == key {
        Some(entries[0].1)
    } else {
        lookup(entries.skip(1), key)
    }
}

/// Find a key in an object's entries; first match wins.
pub fn obj_get<'a>(entries: &'a Vec<(String, JsonValue)>, key: &str) -> (r: Option<
    &'a JsonValue,
>)
    ensures
        match r {
            Some(v) => lookup(entries@, key@) == Some(*v),
            None => lookup(entries@, key@) is None,
        },
{
    let k = key.to_owned();
    let mut i: usize = 0;
    proof {
        assert(entries@.skip(0) =~= entries@);
    }
    while i < entries.len()
        invariant
            0 <= i <= entries@.len(),
            k@ == key@,
            lookup(entries@, key@) == lookup(entries@.skip(i as int), key@),
        decreases entries@.len() - i,
    {
        let pair = &entries[i];
        if pair.0 == k {
            proof {
                assert(entries@.skip(i as int)[0] == entries@[i as int]);
            }
            return Some(&pair.1);
        }
        proof {
            assert(entries@.skip(i as int).skip(1) =~= entries@.skip(i as int + 1));
        }
        i = i + 1;
    }
    proof {
        assert(entries@.skip(i as int).len() == 0);
    }
    None
}

/// A required string field: present and a string, else nothing.
pub open spec fn req_str_field(entries: Seq<(String, JsonValue)>, key: Seq<char>) -> Option<
    Seq<char>,
> {
    match lookup(entries, key) {
        Some(JsonValue::Str(s)) => Some(s@),
        _ => None,
    }
}

/// An optional string field: absent or `null` reads as nothing-there,
/// a string reads as itself, any other value is a shape error (the
/// outer `None`).
pub open spec fn opt_str_field(entries: Seq<(String, JsonValue)>, key: Seq<char>) -> Option<
    Option<Seq<char>>,
> {
    match lookup(entries, key) {
        None => Some(None),
        Some(JsonValue::Null) => Some(None),
        Some(JsonValue::Str(s)) => Some(Some(s@)),
        Some(_) => None,
    }
}

/// An optional integer field, read like `opt_str_field`.
pub open spec fn opt_int_field(entries: Seq<(String, JsonValue)>, key: Seq<char>) -> Option<
    Option<i64>,
> {
    match lookup(entries, key) {
        None => Some(None),
        Some(JsonValue::Null) => Some(None),
        Some(JsonValue::Int(n)) => Some(Some(n)),
        Some(_) => None,
    }
}

/// An optional boolean field, read like `opt_str_field`.
pub open spec fn opt_bool_field(entries: Seq<(String, JsonValue)>, key: Seq<char>) -> Option<
    Option<bool>,
> {
    match lookup(entries, key) {
        None => Some(None),
        Some(JsonValue::Null) => Some(None),
        Some(JsonValue::Bool(b)) => Some(Some(b)),
        Some(_) => None,
    }
}

/// The instant an RFC-3339 text denotes, if it is well formed. The
/// outside parser computes it; the result depends on the text alone.
pub uninterp spec fn rfc3339_instant(s: Seq<char>) -> Option<Timestamp>;

/// Relies on `time::OffsetDateTime::parse` with the well-known RFC-3339
/// format, and on `unix_timestamp` / `nanosecond` of the parsed value:
/// whether the text parses, and the instant it denotes, are a function
/// of the text alone.
#[verifier::external_body]
fn parse_rfc3339(s: &str) -> (r: Option<Timestamp>)
    ensures
        r == rfc3339_instant(s@),
{
    match time::OffsetDateTime::parse(s, &time::format_description::well_known::Rfc3339) {
        Ok(t) => Some(
            Timestamp { unix_seconds: t.unix_timestamp(), nanoseconds: t.nanosecond() },
        ),
        Err(_) => None,
    }
}

/// The `until` field: absent or `null` reads as nothing-there, a string
/// must be a readable RFC-3339 instant, anything else is a shape error.
pub open spec fn until_field(entries: Seq<(String, JsonValue)>) -> Option<Option<Timestamp>> {
    match lookup(entries, "until"@) {
        None => Some(None),
        Some(JsonValue::Null) => Some(None),
        Some(JsonValue::Str(s)) => match rfc3339_instant(s@) {
            Some(t) => Some(Some(t)),
            None => None,
        },
        Some(_) => None,
    }
}

/// What decoding one decision object yields, if its shape is accepted.
pub open spec fn spec_decode_decision(j: JsonValue) -> Option<DecisionV> {
    match j {
        JsonValue::Obj(entries) => {
            let e = entries@;
            match (
                req_str_field(e, "duration"@),
                opt_int_field(e, "id"@),
                req_str_field(e, "origin"@),
                req_str_field(e, "scenario"@),
                req_str_field(e, "scope"@),
            ) {
                (Some(duration), Some(id), Some(origin), Some(scenario), Some(scope)) => match (
                    opt_bool_field(e, "simulated"@),
                    req_str_field(e, "type"@),
                    until_field(e),
                    opt_str_field(e, "uuid"@),
                    req_str_field(e, "value"@),
                ) {
                    (Some(simulated), Some(type_), Some(until), Some(uuid), Some(value)) => Some(
                        DecisionV {
                            duration,
                            id,
                            origin: origin_of_wire(origin),
                            scenario,
                            scope: scope_of_wire(scope),
                            simulated,
                            type_: decision_type_of_wire(type_),
                            until,
                            uuid,
                            value,
                        },
                    ),
                    _ => None,
                },
                _ => None,
            }
        },
        _ => None,
    }
}

fn get_req_str(entries: &Vec<(String, JsonValue)>, key: &str) -> (r: Option<String>)
    ensures
        match r {
            Some(s) => req_str_field(entries@, key@) == Some(s@),
            None => req_str_field(entries@, key@) is None,
        },
{
    match obj_get(entries, key) {
        Some(v) => match v {
            JsonValue::Str(s) => Some(s.clone()),
            _ => None,
        },
        None => None,
    }
}

fn get_opt_str(entries: &Vec<(String, JsonValue)>, key: &str) -> (r: Option<Option<String>>)
    ensures
        match r {
            Some(Some(s)) => opt_str_field(entries@, key@) == Some(Some(s@)),
            Some(None) => opt_str_field(entries@, key@) == Some(None::<Seq<char>>),
            None => opt_str_field(entries@, key@) is None,
        },
{
    match obj_get(entries, key) {
        None => Some(None),
        Some(v) => match v {
            JsonValue::Null => Some(None),
            JsonValue::Str(s) => Some(Some(s.clone())),
            _ => None,
        },
    }
}

fn get_opt_int(entries: &Vec<(String, JsonValue)>, key: &str) -> (r: Option<Option<i64>>)
    ensures
        match r {
            Some(v) => opt_int_field(entries@, key@) == Some(v),
            None => opt_int_field(entries@, key@) is None,
        },
{
    match obj_get(entries, key) {
        None => Some(None),
        Some(v) => match v {
            JsonValue::Null => Some(None),
            JsonValue::Int(n) => Some(Some(*n)),
            _ => None,
        },
    }
}

fn get_opt_bool(entries: &Vec<(String, JsonValue)>, key: &str) -> (r: Option<Option<bool>>)
    ensures
        match r {
            Some(v) => opt_bool_field(entries@, key@) == Some(v),
            None => opt_bool_field(entries@, key@) is None,
        },
{
    match obj_get(entries, key) {
        None => Some(None),
        Some(v) => match v {
            JsonValue::Null => Some(None),
            JsonValue::Bool(b) => Some(Some(*b)),
            _ => None,
        },
    }
}

fn get_until(entries: &Vec<(String, JsonValue)>) -> (r: Option<Option<Timestamp>>)
    ensures
        match r {
            Some(v) => until_field(entries@) == Some(v),
            None => until_field(entries@) is None,
        },
{
    match obj_get(entries, "until") {
        None => Some(None),
        Some(v) => match v {
            JsonValue::Null => Some(None),
            JsonValue::Str(s) => match parse_rfc3339(s.as_str()) {
                Some(t) => Some(Some(t)),
                None => None,
            },
            _ => None,
        },
    }
}

/// Decode one decision object. Exactly the shapes `spec_decode_decision`
/// accepts are accepted; everything else is a `DecodeError`.
pub fn decode_decision(j: &JsonValue) -> (r: Result<Decision, Error>)
    ensures
        match r {
            Ok(d) => spec_decode_decision(*j) == Some(d@),
            Err(e) => spec_decode_decision(*j) is None && e == Error::DecodeError,
        },
{
    let entries = match j {
        JsonValue::Obj(entries) => entries,
        _ => {
            return Err(Error::DecodeError);
        },
    };
    let duration = match get_req_str(entries, "duration") {
        Some(s) => s,
        None => {
            return Err(Error::DecodeError);
        },
    };
    let id = match get_opt_int(entries, "id") {
        Some(v) => v,
        None => {
            return Err(Error::DecodeError);
        },
    };
    let origin_s = match get_req_str(entries, "origin") {
        Some(s) => s,
        None => {
            return Err(Error::DecodeError);
        },
    };
    let scenario = match get_req_str(entries, "scenario") {
        Some(s) => s,
        None => {
            return Err(Error::DecodeError);
        },
    };
    let scope_s = match get_req_str(entries, "scope") {
        Some(s) => s,
        None => {
            return Err(Error::DecodeError);
        },
    };
    let simulated = match get_opt_bool(entries, "simulated") {
        Some(v) => v,
        None => {
            return Err(Error::DecodeError);
        },
    };
    let type_s = match get_req_str(entries, "type") {
        Some(s) => s,
        None => {
            return Err(Error::DecodeError);
        },
    };
    let until = match get_until(entries) {
        Some(v) => v,
        None => {
            return Err(Error::DecodeError);
        },
    };
    let uuid = match get_opt_str(entries, "uuid") {
        Some(v) => v,
        None => {
            return Err(Error::DecodeError);
        },
    };
    let value = match get_req_str(entries, "value") {
        Some(s) => s,
        None => {
            return Err(Error::DecodeError);
        },
    };
    Ok(
        Decision {
            duration,
            id,
            origin: Origin::from_wire(origin_s.as_str()),
            scenario,
            scope: Scope::from_wire(scope_s.as_str()),
            simulated,
            type_: DecisionType::from_wire(type_s.as_str()),
            until,
            uuid,
            value,
        },
    )
}

/// What decoding a whole array of decision objects yields: every element
/// must decode, in order.
pub open spec fn spec_decode_decisions(items: Seq<JsonValue>) -> Option<Seq<DecisionV>>
    decreases items.len(),
{
    if items.len() == 0 {
        Some(Seq::empty())
    } else {
        match (spec_decode_decisions(items.drop_last()), spec_decode_decision(items.last())) {
            (Some(pre), Some(d)) => Some(pre.push(d)),
            _ => None,
        }
    }
}

proof fn lemma_decode_decisions_none(items: Seq<JsonValue>, i: int)
    requires
        0 <= i < items.len(),
        spec_decode_decision(items[i]) is None,
    ensures
        spec_decode_decisions(items) is None,
    decreases items.len(),
{
    if i < items.len() - 1 {
        lemma_decode_decisions_none(items.drop_last(), i);
    }
}

/// Decode an array of decision objects, in order.
pub fn decode_decisions(items: &Vec<JsonValue>) -> (r: Result<Vec<Decision>, Error>)
    ensures
        match r {
            Ok(ds) => spec_decode_decisions(items@) == Some(
                ds@.map_values(|d: Decision| d@),
            ),
            Err(e) => spec_decode_decisions(items@) is None && e == Error::DecodeError,
        },
{
    let mut out: Vec<Decision> = Vec::new();
    proof {
        assert(items@.take(0) =~= Seq::<JsonValue>::empty());
        assert(out@.map_values(|d: Decision| d@) =~= Seq::<DecisionV>::empty());
    }
    let mut i: usize = 0;
    while i < items.len()
        invariant
            0 <= i <= items@.len(),
            spec_decode_decisions(items@.take(i as int)) == Some(
                out@.map_values(|d: Decision| d@),
            ),
        decreases items@.len() - i,
    {
        let ghost prev = out@.map_values(|d: Decision| d@);
        match decode_decision(&items[i]) {
            Ok(d) => {
                out.push(d);
                proof {
                    assert(items@.take(i as int + 1).drop_last() =~= items@.take(i as int));
                    assert(items@.take(i as int + 1).last() == items@[i as int]);
                    assert(out@.map_values(|d: Decision| d@) =~= prev.push(d@));
                }
                i = i + 1;
            },
            Err(_) => {
                proof {
                    lemma_decode_decisions_none(items@, i as int);
                }
                return Err(Error::DecodeError);
            },
        }
    }
    proof {
        assert(items@.take(i as int) =~= items@);
    }
    Ok(out)
}

/// One decision list of the response: only an explicit `null` reads as
/// the empty list; a missing field or any other value is a shape error.
pub open spec fn list_field(entries: Seq<(String, JsonValue)>, key: Seq<char>) -> Option<
    Seq<DecisionV>,
> {
    match lookup(entries, key) {
        Some(JsonValue::Null) => Some(Seq::empty()),
        Some(JsonValue::Arr(items)) => spec_decode_decisions(items@),
        _ => None,
    }
}

fn get_decision_list(entries: &Vec<(String, JsonValue)>, key: &str) -> (r: Result<
    Vec<Decision>,
    Error,
>)
    ensures
        match r {
            Ok(ds) => list_field(entries@, key@) == Some(ds@.map_values(|d: Decision| d@)),
            Err(e) => list_field(entries@, key@) is None && e == Error::DecodeError,
        },
{
    match obj_get(entries, key) {
        Some(v) => match v {
            JsonValue::Null => {
                let empty: Vec<Decision> = Vec::new();
                proof {
                    assert(empty@.map_values(|d: Decision| d@) =~= Seq::<DecisionV>::empty());
                }
                Ok(empty)
            },
            JsonValue::Arr(items) => decode_decisions(items),
            _ => Err(Error::DecodeError),
        },
        None => Err(Error::DecodeError),
    }
}

/// What decoding a whole response yields, if its shape is accepted.
pub open spec fn spec_decode_response(j: JsonValue) -> Option<DecisionsResponseV> {
    match j {
        JsonValue::Obj(entries) => match (
            list_field(entries@, "new"@),
            list_field(entries@, "deleted"@),
        ) {
            (Some(new), Some(deleted)) => Some(DecisionsResponseV { new, deleted }),
            _ => None,
        },
        _ => None,
    }
}

/// Decode a whole response body. Exactly the shapes
/// `spec_decode_response` accepts are accepted; everything else is a
/// `DecodeError`.
pub fn decode_decisions_response(j: &JsonValue) -> (r: Result<DecisionsResponse, Error>)
    ensures
        match r {
            Ok(d) => spec_decode_response(*j) == Some(d@),
            Err(e) => spec_decode_response(*j) is None && e == Error::DecodeError,
        },
{
    let entries = match j {
        JsonValue::Obj(entries) => entries,
        _ => {
            return Err(Error::DecodeError);
        },
    };
    let new = match get_decision_list(entries, "new") {
        Ok(v) => v,
        Err(e) => {
            return Err(e);
        },
    };
    let deleted = match get_decision_list(entries, "deleted") {
        Ok(v) => v,
        Err(e) => {
            return Err(e);
        },
    };
    Ok(DecisionsResponse { new, deleted })
}

} // verus!
