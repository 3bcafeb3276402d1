//! Header Synchronizer: reading headers handed over by the host as ordered
//! name/value byte pairs, and the response-side reversal of the session-id
//! substitution.

use vstd::prelude::*;
use crate::config::FilterConfig;
use crate::config::FilterConfigV;
use crate::routing::BackendId;
use crate::text::append_bytes;
use crate::text::bytes_eq_nocase;
use crate::text::eq_ignore_case;
use crate::text::is_prefix_of;
use crate::text::session_sep_bytes;
use crate::text::skip_bytes;
use crate::text::starts_with;

verus! {

/// The views of a sequence of header pairs.
pub open spec fn hdrs_v(h: Seq<(Vec<u8>, Vec<u8>)>) -> Seq<(Seq<u8>, Seq<u8>)> {
    Seq::new(h.len(), |i: int| (h[i].0@, h[i].1@))
}

/// The value of the first header whose name equals `name` up to ASCII case;
/// the empty byte string when no header does.
pub open spec fn header_value(headers: Seq<(Seq<u8>, Seq<u8>)>, name: Seq<u8>) -> Seq<u8>
    decreases headers.len(),
{
    if headers.len() == 0 {
        Seq::empty()
    } else if bytes_eq_nocase(headers[0].0, name) {
        headers[0].1
    } else {
        header_value(headers.skip(1), name)
    }
}

/// Finds a header value by name: case-insensitive name match, first match
/// wins, the empty byte string when the header is absent.
pub fn find_header_value(headers: &Vec<(Vec<u8>, Vec<u8>)>, name: &Vec<u8>) -> (r: Vec<u8>)
    ensures
        r@ == header_value(hdrs_v(headers@), name@),
{
    let ghost all = hdrs_v(headers@);
    proof {
        assert(all.skip(0) =~= all);
    }
    let mut i: usize = 0;
    while i < headers.len()
        invariant
            0 <= i <= headers.len(),
            all == hdrs_v(headers@),
            all.len() == headers@.len(),
            header_value(all, name@) == header_value(all.skip(i as int), name@),
        decreases headers.len() - i,
    {
        proof {
            assert(all.skip(i as int)[0] == all[i as int]);
        }
        if eq_ignore_case(&headers[i].0, name) {
            let r = skip_bytes(&headers[i].1, 0);
            proof {
                assert(headers@[i as int].1@.skip(0) =~= headers@[i as int].1@);
            }
            return r;
        }
        proof {
            assert(all.skip(i as int).skip(1) =~= all.skip(i + 1));
        }
        i = i + 1;
    }
    proof {
        assert(all.skip(headers@.len() as int).len() == 0);
    }
    Vec::new()
}

/// The response-side session rewrite: when the session header value starts
/// with a recognized backend-session prefix, the rewritten value is the
/// remainder after that exact prefix; otherwise the header is left untouched.
/// The first backend's prefix is checked first.
pub open spec fn response_rewrite(cfg: FilterConfigV, v: Seq<u8>) -> Option<Seq<u8>> {
    if is_prefix_of(cfg.session_prefix(BackendId::A), v) {
        Some(v.skip(cfg.session_prefix(BackendId::A).len() as int))
    } else if is_prefix_of(cfg.session_prefix(BackendId::B), v) {
        Some(v.skip(cfg.session_prefix(BackendId::B).len() as int))
    } else {
        None
    }
}

/// The recognized backend-session prefix of `b`, as bytes.
pub fn session_prefix_bytes(cfg: &FilterConfig, b: BackendId) -> (r: Vec<u8>)
    ensures
        r@ == cfg@.session_prefix(b),
{
    let mut p = match b {
        BackendId::A => skip_bytes(&cfg.literal_a, 0),
        BackendId::B => skip_bytes(&cfg.literal_b, 0),
    };
    proof {
        assert(cfg.literal_a@.skip(0) =~= cfg.literal_a@);
        assert(cfg.literal_b@.skip(0) =~= cfg.literal_b@);
    }
    let sep = session_sep_bytes();
    append_bytes(&mut p, &sep);
    p
}

/// Computes the rewritten session header value for the response path, or
/// `None` when the value carries no recognized backend-session prefix.
pub fn rewrite_response_session(cfg: &FilterConfig, value: &Vec<u8>) -> (r: Option<Vec<u8>>)
    ensures
        match (r, response_rewrite(cfg@, value@)) {
            (None, None) => true,
            (Some(v), Some(s)) => v@ == s,
            _ => false,
        },
{
    let pa = session_prefix_bytes(cfg, BackendId::A);
    if starts_with(value, &pa) {
        return Some(skip_bytes(value, pa.len()));
    }
    let pb = session_prefix_bytes(cfg, BackendId::B);
    if starts_with(value, &pb) {
        return Some(skip_bytes(value, pb.len()));
    }
    None
}

} // verus!
