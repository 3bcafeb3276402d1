//! Request Body Inspector: reassembles the streamed body chunks and extracts
//! the method and tool name from the complete body. A body that is not UTF-8
//! text or not valid JSON yields no invocation, and the exchange fails open
//! to passthrough.

use vstd::prelude::*;
use crate::text::append_bytes;

verus! {

/// The routing-relevant content of a request body: its `method`, and
/// `params.name` as the tool name, each defaulting to the empty string when
/// absent or not a string.
pub struct Invocation {
    pub method: Vec<u8>,
    pub tool_name: Vec<u8>,
}

/// What a request body holds: `None` when the bytes are not UTF-8 text or do
/// not parse as JSON; otherwise the method and the tool name, empty when
/// absent.
pub uninterp spec fn invocation_of(body: Seq<u8>) -> Option<(Seq<u8>, Seq<u8>)>;

/// Relies on `serde_json::from_slice` and `serde_json::Value::{get, as_str}`:
/// decodes and parses the body, reading `"method"` and `"params"."name"` with
/// the empty string as default for a missing or non-string member. The result
/// depends on the bytes alone.
#[verifier::external_body]
pub fn parse_invocation(body: &Vec<u8>) -> (r: Option<Invocation>)
    ensures
        match (r, invocation_of(body@)) {
            (None, None) => true,
            (Some(inv), Some(s)) => inv.method@ == s.0 && inv.tool_name@ == s.1,
            _ => false,
        },
{
    let v: serde_json::Value = match serde_json::from_slice(body) {
        Ok(v) => v,
        Err(_) => return None,
    };
    let method = v.get("method").and_then(|m| m.as_str()).unwrap_or("").as_bytes().to_vec();
    let name = v.get("params").and_then(|p| p.get("name")).and_then(|n| n.as_str()).unwrap_or(
        "",
    ).as_bytes().to_vec();
    Some(Invocation { method, tool_name: name })
}

/// The views of a sequence of body chunks.
pub open spec fn chunks_v(cs: Seq<Vec<u8>>) -> Seq<Seq<u8>> {
    Seq::new(cs.len(), |i: int| cs[i]@)
}

/// The concatenation of the chunks, in order.
pub open spec fn concat_chunks(cs: Seq<Seq<u8>>) -> Seq<u8>
    decreases cs.len(),
{
    if cs.len() == 0 {
        Seq::empty()
    } else {
        cs[0] + concat_chunks(cs.skip(1))
    }
}

/// Reassembles the buffered body chunks, in order, into one byte string.
pub fn assemble_chunks(chunks: &Vec<Vec<u8>>) -> (r: Vec<u8>)
    ensures
        r@ == concat_chunks(chunks_v(chunks@)),
{
    let ghost all = chunks_v(chunks@);
    proof {
        assert(all.skip(0) =~= all);
    }
    let mut out: Vec<u8> = Vec::new();
    let mut i: usize = 0;
    while i < chunks.len()
        invariant
            0 <= i <= chunks.len(),
            all == chunks_v(chunks@),
            all.len() == chunks@.len(),
            concat_chunks(all) == out@ + concat_chunks(all.skip(i as int)),
        decreases chunks.len() - i,
    {
        proof {
            assert(all.skip(i as int)[0] == all[i as int]);
            assert(all.skip(i as int).skip(1) =~= all.skip(i + 1));
        }
        let ghost prev = out@;
        append_bytes(&mut out, &chunks[i]);
        proof {
            let ghost c = all[i as int];
            assert((prev + c) + concat_chunks(all.skip(i + 1)) =~= prev + (c + concat_chunks(
                all.skip(i + 1),
            )));
        }
        i = i + 1;
    }
    proof {
        assert(all.skip(chunks@.len() as int).len() == 0);
        assert(out@ + Seq::<u8>::empty() =~= out@);
    }
    out
}

} // verus!
