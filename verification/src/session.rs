//! Session Mapper: resolves the backend session id for a routed request from
//! the lookup service's reply, or synthesizes a deterministic fallback id,
//! and proves that the response-side reversal recovers the gateway id from a
//! synthesized one.

use vstd::prelude::*;
use crate::config::FilterConfig;
use crate::config::FilterConfigV;
use crate::headers::response_rewrite;
use crate::headers::session_prefix_bytes;
use crate::routing::BackendId;
use crate::text::append_bytes;
use crate::text::is_prefix_of;

verus! {

/// A parsed reply of the session lookup service.
pub struct LookupResult {
    pub server1_session_id: Vec<u8>,
    pub server2_session_id: Vec<u8>,
    pub found: bool,
}

/// What a lookup reply body holds: the two backend session ids and the
/// `found` flag, or `None` when the bytes do not parse as a JSON object with
/// those members of those types.
pub uninterp spec fn lookup_result_of(body: Seq<u8>) -> Option<(Seq<u8>, Seq<u8>, bool)>;

/// Relies on `serde_json::from_slice` and `serde_json::Value::{get, as_str,
/// as_bool}`: reads the members `"server1_session_id"`, `"server2_session_id"`
/// (strings) and `"found"` (boolean) of a JSON object; `None` when the body
/// does not parse or a member is missing or of another type. The result
/// depends on the bytes alone.
#[verifier::external_body]
pub fn parse_lookup_response(body: &Vec<u8>) -> (r: Option<LookupResult>)
    ensures
        match (r, lookup_result_of(body@)) {
            (None, None) => true,
            (Some(l), Some(s)) => l.server1_session_id@ == s.0 && l.server2_session_id@ == s.1
                && l.found == s.2,
            _ => false,
        },
{
    let v: serde_json::Value = serde_json::from_slice(body).ok()?;
    let s1 = v.get("server1_session_id")?.as_str()?.as_bytes().to_vec();
    let s2 = v.get("server2_session_id")?.as_str()?.as_bytes().to_vec();
    let found = v.get("found")?.as_bool()?;
    Some(LookupResult { server1_session_id: s1, server2_session_id: s2, found })
}

/// The backend session id a found lookup reply resolves to: the first
/// backend's id for backend A, the second's for backend B.
pub open spec fn resolved_session_id(b: BackendId, sid1: Seq<u8>, sid2: Seq<u8>) -> Seq<u8> {
    match b {
        BackendId::A => sid1,
        BackendId::B => sid2,
    }
}

/// The deterministic fallback session id for backend `b` and gateway session
/// `gw`: the backend literal, `"-session-"`, then `gw`.
pub open spec fn fallback_session_id(cfg: FilterConfigV, b: BackendId, gw: Seq<u8>) -> Seq<u8> {
    cfg.session_prefix(b) + gw
}

/// Synthesizes the fallback session id.
pub fn make_fallback_session_id(cfg: &FilterConfig, b: BackendId, gw: &Vec<u8>) -> (r: Vec<u8>)
    ensures
        r@ == fallback_session_id(cfg@, b, gw@),
{
    let mut p = session_prefix_bytes(cfg, b);
    append_bytes(&mut p, gw);
    p
}

/// The backend session id committed when a lookup completes: the resolved id
/// when the completion succeeded, its body parses, and the mapping was found;
/// the deterministic fallback on every other outcome — a failed completion, a
/// missing or malformed body, or `found` being false.
pub open spec fn completion_session_id(
    cfg: FilterConfigV,
    b: BackendId,
    success: bool,
    body: Option<Seq<u8>>,
    gw: Seq<u8>,
) -> Seq<u8> {
    match body {
        Some(bs) => if success {
            match lookup_result_of(bs) {
                Some(lr) => if lr.2 {
                    resolved_session_id(b, lr.0, lr.1)
                } else {
                    fallback_session_id(cfg, b, gw)
                },
                None => fallback_session_id(cfg, b, gw),
            }
        } else {
            fallback_session_id(cfg, b, gw)
        },
        None => fallback_session_id(cfg, b, gw),
    }
}

/// Fallback round trip: for a fixed backend and gateway session id the
/// synthesized session id is the backend literal, `"-session-"`, then the
/// gateway id, and the response-side reversal recovers the gateway id from it
/// exactly.
pub proof fn lemma_fallback_round_trip(cfg: FilterConfigV, b: BackendId, gw: Seq<u8>)
    requires
        cfg.wf(),
    ensures
        response_rewrite(cfg, fallback_session_id(cfg, b, gw)) == Some(gw),
{
    let pa = cfg.session_prefix(BackendId::A);
    let pb = cfg.session_prefix(BackendId::B);
    match b {
        BackendId::A => {
            assert(is_prefix_of(pa, pa + gw));
            assert((pa + gw).skip(pa.len() as int) =~= gw);
        },
        BackendId::B => {
            assert(is_prefix_of(pb, pb + gw));
            if is_prefix_of(pa, pb + gw) {
                if pa.len() <= pb.len() {
                    assert forall|i: int| 0 <= i < pa.len() implies pb[i] == pa[i] by {
                        assert((pb + gw)[i] == pa[i]);
                    }
                    assert(is_prefix_of(pa, pb));
                } else {
                    assert forall|i: int| 0 <= i < pb.len() implies pa[i] == pb[i] by {
                        assert((pb + gw)[i] == pa[i]);
                    }
                    assert(is_prefix_of(pb, pa));
                }
            }
            assert((pb + gw).skip(pb.len() as int) =~= gw);
        },
    }
}

} // verus!
