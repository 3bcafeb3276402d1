//! Body Rewriter: produces the body with `params.name` replaced by the
//! stripped tool name, together with the decimal framing-length value for it.
//! When any step fails the caller keeps the original body untouched and
//! header-based routing still proceeds.

use vstd::prelude::*;
use crate::text::decimal_of;
use crate::text::format_u64;

verus! {

/// What rewriting a body to a new tool name yields: the body re-serialized
/// with `params.name` replaced, or `None` when the body does not parse, its
/// `params` is not an object, the new name is not UTF-8 text, or
/// serialization fails.
pub uninterp spec fn rewritten_body_of(body: Seq<u8>, new_name: Seq<u8>) -> Option<Seq<u8>>;

/// Relies on `serde_json::{from_slice, to_string}`, `serde_json::Value::
/// {get_mut, as_object_mut}` and `serde_json::Map::insert`: re-serializes the
/// body with `params.name` set to `new_name`. The result depends on the two
/// byte strings alone.
#[verifier::external_body]
fn rewrite_with_name(body: &Vec<u8>, new_name: &Vec<u8>) -> (r: Option<Vec<u8>>)
    ensures
        match (r, rewritten_body_of(body@, new_name@)) {
            (None, None) => true,
            (Some(v), Some(s)) => v@ == s,
            _ => false,
        },
{
    let name = std::str::from_utf8(new_name).ok()?.to_string();
    let mut v: serde_json::Value = serde_json::from_slice(body).ok()?;
    let params = v.get_mut("params")?.as_object_mut()?;
    params.insert("name".to_string(), serde_json::Value::String(name));
    let out = serde_json::to_string(&v).ok()?;
    Some(out.into_bytes())
}

/// Plans the body rewrite for a routed invocation: the rewritten body and the
/// decimal framing-length value that goes with it, or `None` when the rewrite
/// fails — the original body then stays untouched.
pub fn plan_rewrite(body: &Vec<u8>, stripped: &Vec<u8>) -> (r: Option<(Vec<u8>, Vec<u8>)>)
    ensures
        match (r, rewritten_body_of(body@, stripped@)) {
            (None, None) => true,
            (Some(p), Some(s)) => p.0@ == s && p.1@ == decimal_of(s.len()),
            _ => false,
        },
{
    match rewrite_with_name(body, stripped) {
        None => None,
        Some(nb) => {
            let len = format_u64(nb.len() as u64);
            Some((nb, len))
        },
    }
}

} // verus!
