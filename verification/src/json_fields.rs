//! Trusted extraction of single fields from a JSON response body.
//!
//! The service answers with JSON; `serde_json` does the parsing. Each
//! wrapper here pulls one field out of the parsed body and hands it back
//! as a plain value. What a given body holds at a given field is a
//! function of the bytes alone, so each wrapper's result is pinned to an
//! uninterpreted name over the byte and character sequences; the verified
//! schema checks are built on those names.

use vstd::prelude::*;

verus! {

/// The string at top-level field `name` of the JSON object `body` parses
/// to, if any.
pub uninterp spec fn json_str_of(body: Seq<u8>, name: Seq<char>) -> Option<Seq<char>>;

/// The unsigned integer at top-level field `name`, if any.
pub uninterp spec fn json_u64_of(body: Seq<u8>, name: Seq<char>) -> Option<u64>;

/// The boolean at top-level field `name`, if any.
pub uninterp spec fn json_bool_of(body: Seq<u8>, name: Seq<char>) -> Option<bool>;

/// The string at field `name` of the object at top-level field `outer`.
pub uninterp spec fn json_str2_of(body: Seq<u8>, outer: Seq<char>, name: Seq<char>) -> Option<
    Seq<char>,
>;

/// The unsigned integer at field `name` of the object at field `outer`.
pub uninterp spec fn json_u64_2_of(body: Seq<u8>, outer: Seq<char>, name: Seq<char>) -> Option<
    u64,
>;

/// The boolean at field `name` of the object at field `outer`.
pub uninterp spec fn json_bool2_of(body: Seq<u8>, outer: Seq<char>, name: Seq<char>) -> Option<
    bool,
>;

/// The trusted-IP list (`ipAddress`, `prefix`, `type` of each element) at
/// field `name` of the object at field `outer`.
pub uninterp spec fn json_ip_list_of(body: Seq<u8>, outer: Seq<char>, name: Seq<char>) -> Option<
    Seq<(Seq<char>, u64, Seq<char>)>,
>;

/// The key/value list (`key`, `value` of each element) at field `name` of
/// the object at field `outer`.
pub uninterp spec fn json_kv_list_of(body: Seq<u8>, outer: Seq<char>, name: Seq<char>) -> Option<
    Seq<(Seq<char>, Seq<char>)>,
>;

/// The tag list (`color`, `id`, `name`, `slug` of each element) at field
/// `name` of the object at field `outer`.
pub uninterp spec fn json_tag_list_of(body: Seq<u8>, outer: Seq<char>, name: Seq<char>) -> Option<
    Seq<(Seq<char>, Seq<char>, Seq<char>, Seq<char>)>,
>;

/// Relies on `serde_json::from_slice` and `serde_json::Value::get` /
/// `as_str`: the string at a top-level field of the body.
#[verifier::external_body]
pub fn json_str_field(body: &[u8], name: &str) -> (r: Option<String>)
    ensures
        r matches Some(s) ==> json_str_of(body@, name@) == Some(s@),
        r is None ==> json_str_of(body@, name@) is None,
{
    serde_json::from_slice::<serde_json::Value>(body)
        .ok()
        .and_then(|v| v.get(name).and_then(|f| f.as_str().map(|s| s.to_string())))
}

/// Relies on `serde_json::from_slice` and `serde_json::Value::get` /
/// `as_u64`: the unsigned integer at a top-level field of the body.
#[verifier::external_body]
pub fn json_u64_field(body: &[u8], name: &str) -> (r: Option<u64>)
    ensures
        r == json_u64_of(body@, name@),
{
    serde_json::from_slice::<serde_json::Value>(body)
        .ok()
        .and_then(|v| v.get(name).and_then(|f| f.as_u64()))
}

/// Relies on `serde_json::from_slice` and `serde_json::Value::get` /
/// `as_bool`: the boolean at a top-level field of the body.
#[verifier::external_body]
pub fn json_bool_field(body: &[u8], name: &str) -> (r: Option<bool>)
    ensures
        r == json_bool_of(body@, name@),
{
    serde_json::from_slice::<serde_json::Value>(body)
        .ok()
        .and_then(|v| v.get(name).and_then(|f| f.as_bool()))
}

/// Relies on `serde_json::from_slice` and `serde_json::Value::get` /
/// `as_str`: the string at a field nested one object deep.
#[verifier::external_body]
pub fn json_str_field2(body: &[u8], outer: &str, name: &str) -> (r: Option<String>)
    ensures
        r matches Some(s) ==> json_str2_of(body@, outer@, name@) == Some(s@),
        r is None ==> json_str2_of(body@, outer@, name@) is None,
{
    serde_json::from_slice::<serde_json::Value>(body)
        .ok()
        .and_then(
            |v| v.get(outer).and_then(
                |o| o.get(name).and_then(|f| f.as_str().map(|s| s.to_string())),
            ),
        )
}

/// Relies on `serde_json::from_slice` and `serde_json::Value::get` /
/// `as_u64`: the unsigned integer at a field nested one object deep.
#[verifier::external_body]
pub fn json_u64_field2(body: &[u8], outer: &str, name: &str) -> (r: Option<u64>)
    ensures
        r == json_u64_2_of(body@, outer@, name@),
{
    serde_json::from_slice::<serde_json::Value>(body)
        .ok()
        .and_then(|v| v.get(outer).and_then(|o| o.get(name).and_then(|f| f.as_u64())))
}

/// Relies on `serde_json::from_slice` and `serde_json::Value::get` /
/// `as_bool`: the boolean at a field nested one object deep.
#[verifier::external_body]
pub fn json_bool_field2(body: &[u8], outer: &str, name: &str) -> (r: Option<bool>)
    ensures
        r == json_bool2_of(body@, outer@, name@),
{
    serde_json::from_slice::<serde_json::Value>(body)
        .ok()
        .and_then(|v| v.get(outer).and_then(|o| o.get(name).and_then(|f| f.as_bool())))
}

/// Relies on `serde_json::from_slice`, `serde_json::Value::get`,
/// `as_array`, `as_str` and `as_u64`: the trusted-IP entries at a field
/// nested one object deep, each as its `ipAddress`, `prefix` and `type`
/// fields. A list with a malformed element extracts as nothing.
#[verifier::external_body]
pub fn json_ip_list_field2(body: &[u8], outer: &str, name: &str) -> (r: Option<
    Vec<(String, u64, String)>,
>)
    ensures
        r matches Some(v) ==> json_ip_list_of(body@, outer@, name@) == Some(
            v@.map_values(|t: (String, u64, String)| (t.0@, t.1, t.2@)),
        ),
        r is None ==> json_ip_list_of(body@, outer@, name@) is None,
{
    let parsed = serde_json::from_slice::<serde_json::Value>(body).ok()?;
    let arr = parsed.get(outer)?.get(name)?.as_array()?;
    let mut out = Vec::new();
    for e in arr {
        out.push((
            e.get("ipAddress")?.as_str()?.to_string(),
            e.get("prefix")?.as_u64()?,
            e.get("type")?.as_str()?.to_string(),
        ));
    }
    Some(out)
}

/// Relies on `serde_json::from_slice`, `serde_json::Value::get`,
/// `as_array` and `as_str`: the key/value entries at a field nested one
/// object deep. A list with a malformed element extracts as nothing.
#[verifier::external_body]
pub fn json_kv_list_field2(body: &[u8], outer: &str, name: &str) -> (r: Option<
    Vec<(String, String)>,
>)
    ensures
        r matches Some(v) ==> json_kv_list_of(body@, outer@, name@) == Some(
            v@.map_values(|t: (String, String)| (t.0@, t.1@)),
        ),
        r is None ==> json_kv_list_of(body@, outer@, name@) is None,
{
    let parsed = serde_json::from_slice::<serde_json::Value>(body).ok()?;
    let arr = parsed.get(outer)?.get(name)?.as_array()?;
    let mut out = Vec::new();
    for e in arr {
        out.push((
            e.get("key")?.as_str()?.to_string(),
            e.get("value")?.as_str()?.to_string(),
        ));
    }
    Some(out)
}

/// Relies on `serde_json::from_slice`, `serde_json::Value::get`,
/// `as_array` and `as_str`: the tag entries at a field nested one object
/// deep, each as its `color`, `id`, `name` and `slug` fields. A list with
/// a malformed element extracts as nothing.
#[verifier::external_body]
pub fn json_tag_list_field2(body: &[u8], outer: &str, name: &str) -> (r: Option<
    Vec<(String, String, String, String)>,
>)
    ensures
        r matches Some(v) ==> json_tag_list_of(body@, outer@, name@) == Some(
            v@.map_values(|t: (String, String, String, String)| (t.0@, t.1@, t.2@, t.3@)),
        ),
        r is None ==> json_tag_list_of(body@, outer@, name@) is None,
{
    let parsed = serde_json::from_slice::<serde_json::Value>(body).ok()?;
    let arr = parsed.get(outer)?.get(name)?.as_array()?;
    let mut out = Vec::new();
    for e in arr {
        out.push((
            e.get("color")?.as_str()?.to_string(),
            e.get("id")?.as_str()?.to_string(),
            e.get("name")?.as_str()?.to_string(),
            e.get("slug")?.as_str()?.to_string(),
        ));
    }
    Some(out)
}

} // verus!
