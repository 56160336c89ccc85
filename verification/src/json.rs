use serde_json::Value;
use vstd::prelude::*;

use crate::text::{chars_of, find_from, index_of_or_len, lemma_index_from_scan, substring};

verus! {

/// serde_json's `Value`, carried through without Verus seeing inside it.
#[verifier::external_type_specification]
#[verifier::external_body]
pub struct ExJsonValue(Value);

/// What `Value::get` of serde_json gives for a string index: the member
/// `key` of `v` when `v` is an object that has it, else `None`.
pub uninterp spec fn json_member(v: Value, key: Seq<char>) -> Option<Value>;

/// A copy of the member `key` of `v`, when `v` is an object that has it:
/// serde_json's `Value::get` with a string index, then `Option::cloned`;
/// trusted to give `json_member(v, key)`.
#[verifier::external_body]
pub(crate) fn member(v: &Value, key: &str) -> (m: Option<Value>)
    ensures
        m == json_member(*v, key@),
{
    v.get(key).cloned()
}

/// What serde_json's `from_str` makes of the text `s`: the JSON value it
/// holds, or `None` when `s` is not exactly one JSON value.
pub uninterp spec fn json_parsed(s: Seq<char>) -> Option<Value>;

/// Parses `s` with serde_json's `from_str`; trusted to give
/// `json_parsed(s)`.
#[verifier::external_body]
pub(crate) fn parse_json(s: &str) -> (v: Option<Value>)
    ensures
        v == json_parsed(s@),
{
    serde_json::from_str(s).ok()
}

/// What an object `v` becomes once its member `key` is removed with
/// serde_json's `Map::remove`.
pub uninterp spec fn json_without(v: Value, key: Seq<char>) -> Value;

/// Takes the member `key` out of `v`, when `v` is an object that has it:
/// serde_json's `Value::as_object_mut`, then `Map::remove`. Trusted to
/// return what `Value::get` finds there (`json_member`), the same map
/// lookup, and to leave `v` as it was when it finds nothing.
#[verifier::external_body]
pub(crate) fn take_member(v: &mut Value, key: &str) -> (m: Option<Value>)
    ensures
        m == json_member(*old(v), key@),
        m is Some ==> *final(v) == json_without(*old(v), key@),
        m is None ==> *final(v) == *old(v),
{
    match v.as_object_mut() {
        Some(obj) => obj.remove(key),
        None => None,
    }
}

/// The text `v` holds when it is a JSON string, as serde_json's
/// `Value::as_str` gives it.
pub uninterp spec fn json_text(v: Value) -> Option<Seq<char>>;

/// A copy of the text `v` holds, with serde_json's `Value::as_str`; trusted
/// to give `json_text(v)`.
#[verifier::external_body]
pub(crate) fn as_text(v: &Value) -> (t: Option<String>)
    ensures
        t matches Some(s) ==> json_text(*v) == Some(s@),
        t is None ==> json_text(*v) is None,
{
    match v.as_str() {
        Some(s) => Some(s.to_string()),
        None => None,
    }
}

/// The number `v` holds when it is an integer that fits a `u64`, as
/// serde_json's `Value::as_u64` gives it.
pub uninterp spec fn json_u64(v: Value) -> Option<u64>;

/// The number `v` holds, with serde_json's `Value::as_u64`; trusted to give
/// `json_u64(v)`.
#[verifier::external_body]
pub(crate) fn as_u64(v: &Value) -> (n: Option<u64>)
    ensures
        n == json_u64(*v),
{
    v.as_u64()
}

/// Follows the `.`-separated path `key` from `v`, one object member at a time.
pub open spec fn json_path(v: Value, key: Seq<char>) -> Option<Value>
    decreases key.len(),
{
    let end = index_of_or_len(key, '.') as int;
    match json_member(v, key.take(end)) {
        None => None,
        Some(m) => if end >= key.len() {
            Some(m)
        } else {
            json_path(m, key.skip(end + 1))
        },
    }
}

/// Follows the path `v[start..]` from `cur`.
fn path_from(cur: &Value, v: &Vec<char>, start: usize) -> (r: Option<Value>)
    requires
        start <= v@.len(),
    ensures
        r == json_path(*cur, v@.skip(start as int)),
    decreases v@.len() - start,
{
    let ghost rest = v@.skip(start as int);
    let end = find_from(v, start, '.');
    let part = substring(v, start, end);
    proof {
        assert forall|j: int| 0 <= j < end - start implies rest[j] != '.' by {
            assert(rest[j] == v@[start + j]);
        }
        if end < v@.len() {
            assert(rest[end - start] == v@[end as int]);
        }
        lemma_index_from_scan(rest, '.', end - start);
        assert(rest.take(end - start) =~= part@);
    }
    match member(cur, part.as_str()) {
        None => None,
        Some(m) => {
            if end >= v.len() {
                Some(m)
            } else {
                assert(rest.skip(end - start + 1) =~= v@.skip(end + 1));
                path_from(&m, v, end + 1)
            }
        },
    }
}

/// The value found in `data` at the `.`-separated path `key`, such as
/// `"a.b.c"`: each part names a member of the object reached so far.
pub fn get_json_key(data: &Value, key: &str) -> (r: Option<Value>)
    ensures
        r == json_path(*data, key@),
{
    let v = chars_of(key);
    assert(v@.skip(0) =~= v@);
    path_from(data, &v, 0)
}

} // verus!
