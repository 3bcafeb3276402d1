//! Byte-string utilities and the protocol literals the router speaks of.
//!
//! Header names, the routed method name, and session-id pieces are all kept
//! as byte strings, since the host hands headers and bodies over as bytes.

use vstd::prelude::*;

verus! {

/// ASCII case folding of a single byte: upper-case letters map to lower case,
/// everything else is unchanged.
pub open spec fn ascii_lower(b: u8) -> u8 {
    if 65 <= b && b <= 90 {
        (b + 32) as u8
    } else {
        b
    }
}

/// Case-insensitive equality of two byte strings, ASCII letters only.
pub open spec fn bytes_eq_nocase(a: Seq<u8>, b: Seq<u8>) -> bool {
    a.len() == b.len() && forall|i: int| 0 <= i < a.len() ==> ascii_lower(a[i]) == ascii_lower(b[i])
}

/// `p` is a prefix of `v`.
pub open spec fn is_prefix_of(p: Seq<u8>, v: Seq<u8>) -> bool {
    p.len() <= v.len() && forall|i: int| 0 <= i < p.len() ==> v[i] == p[i]
}

fn lower_byte(b: u8) -> (r: u8)
    ensures
        r == ascii_lower(b),
{
    if 65 <= b && b <= 90 {
        b + 32
    } else {
        b
    }
}

/// Case-insensitive comparison of two byte strings.
pub fn eq_ignore_case(a: &Vec<u8>, b: &Vec<u8>) -> (r: bool)
    ensures
        r == bytes_eq_nocase(a@, b@),
{
    if a.len() != b.len() {
        return false;
    }
    let mut i: usize = 0;
    while i < a.len()
        invariant
            0 <= i <= a.len(),
            a@.len() == b@.len(),
            forall|j: int| 0 <= j < i ==> ascii_lower(a@[j]) == ascii_lower(b@[j]),
        decreases a.len() - i,
    {
        if lower_byte(a[i]) != lower_byte(b[i]) {
            return false;
        }
        i = i + 1;
    }
    true
}

/// Exact equality of two byte strings.
pub fn bytes_eq(a: &Vec<u8>, b: &Vec<u8>) -> (r: bool)
    ensures
        r == (a@ == b@),
{
    if a.len() != b.len() {
        return false;
    }
    let mut i: usize = 0;
    while i < a.len()
        invariant
            0 <= i <= a.len(),
            a@.len() == b@.len(),
            forall|j: int| 0 <= j < i ==> a@[j] == b@[j],
        decreases a.len() - i,
    {
        if a[i] != b[i] {
            return false;
        }
        i = i + 1;
    }
    proof {
        assert(a@ =~= b@);
    }
    true
}

/// Does `v` start with prefix `p`?
pub fn starts_with(v: &Vec<u8>, p: &Vec<u8>) -> (r: bool)
    ensures
        r == is_prefix_of(p@, v@),
{
    if p.len() > v.len() {
        return false;
    }
    let mut i: usize = 0;
    while i < p.len()
        invariant
            0 <= i <= p.len(),
            p@.len() <= v@.len(),
            forall|j: int| 0 <= j < i ==> v@[j] == p@[j],
        decreases p.len() - i,
    {
        if v[i] != p[i] {
            return false;
        }
        i = i + 1;
    }
    true
}

/// Appends all of `src` onto `dst`.
pub fn append_bytes(dst: &mut Vec<u8>, src: &Vec<u8>)
    ensures
        final(dst)@ == old(dst)@ + src@,
{
    let mut i: usize = 0;
    while i < src.len()
        invariant
            0 <= i <= src.len(),
            dst@ == old(dst)@ + src@.subrange(0, i as int),
        decreases src.len() - i,
    {
        dst.push(src[i]);
        proof {
            assert(old(dst)@ + src@.subrange(0, i as int) + seq![src@[i as int]] =~= old(
                dst,
            )@ + src@.subrange(0, i + 1));
        }
        i = i + 1;
    }
    proof {
        assert(old(dst)@ + src@.subrange(0, src@.len() as int) =~= old(dst)@ + src@);
    }
}

/// Copies `v` without its first `n` bytes.
pub fn skip_bytes(v: &Vec<u8>, n: usize) -> (r: Vec<u8>)
    requires
        n <= v@.len(),
    ensures
        r@ == v@.skip(n as int),
{
    let mut out: Vec<u8> = Vec::new();
    let mut i: usize = n;
    while i < v.len()
        invariant
            n <= i <= v.len(),
            out@ == v@.subrange(n as int, i as int),
        decreases v.len() - i,
    {
        out.push(v[i]);
        proof {
            assert(v@.subrange(n as int, i as int) + seq![v@[i as int]] =~= v@.subrange(
                n as int,
                i + 1,
            ));
        }
        i = i + 1;
    }
    proof {
        assert(v@.subrange(n as int, v@.len() as int) =~= v@.skip(n as int));
    }
    out
}

/// Copies a byte string.
pub fn copy_bytes(v: &Vec<u8>) -> (r: Vec<u8>)
    ensures
        r@ == v@,
{
    let r = skip_bytes(v, 0);
    proof {
        assert(v@.skip(0) =~= v@);
    }
    r
}

/// Decimal digits of `n`, most significant first.
pub open spec fn decimal_of(n: nat) -> Seq<u8>
    decreases n,
{
    if n < 10 {
        seq![(48 + n) as u8]
    } else {
        decimal_of(n / 10) + seq![(48 + n % 10) as u8]
    }
}

/// Formats `n` in decimal, as the framing-length header wants it.
pub fn format_u64(n: u64) -> (r: Vec<u8>)
    ensures
        r@ == decimal_of(n as nat),
    decreases n,
{
    if n < 10 {
        let mut v: Vec<u8> = Vec::new();
        v.push(48 + (n as u8));
        proof {
            assert(v@ =~= decimal_of(n as nat));
        }
        v
    } else {
        let mut v = format_u64(n / 10);
        v.push(48 + ((n % 10) as u8));
        proof {
            assert(decimal_of((n / 10) as nat) + seq![(48 + (n as nat) % 10) as u8] =~= decimal_of(
                (n / 10) as nat,
            ).push((48 + (n % 10) as u8) as u8));
            assert(v@ =~= decimal_of(n as nat));
        }
        v
    }
}

/// Byte form of the request method that triggers routing, `"tools/call"`.
pub open spec fn method_tools_call() -> Seq<u8> {
    seq![116u8, 111u8, 111u8, 108u8, 115u8, 47u8, 99u8, 97u8, 108u8, 108u8]
}

pub fn method_tools_call_bytes() -> (r: Vec<u8>)
    ensures
        r@ == method_tools_call(),
{
    let mut v: Vec<u8> = Vec::new();
    v.push(116);
    v.push(111);
    v.push(111);
    v.push(108);
    v.push(115);
    v.push(47);
    v.push(99);
    v.push(97);
    v.push(108);
    v.push(108);
    proof {
        assert(v@ =~= method_tools_call());
    }
    v
}

/// Byte form of the separator in synthesized backend session ids, `"-session-"`.
pub open spec fn session_sep() -> Seq<u8> {
    seq![45u8, 115u8, 101u8, 115u8, 115u8, 105u8, 111u8, 110u8, 45u8]
}

pub fn session_sep_bytes() -> (r: Vec<u8>)
    ensures
        r@ == session_sep(),
{
    let mut v: Vec<u8> = Vec::new();
    v.push(45);
    v.push(115);
    v.push(101);
    v.push(115);
    v.push(115);
    v.push(105);
    v.push(111);
    v.push(110);
    v.push(45);
    proof {
        assert(v@ =~= session_sep());
    }
    v
}

/// Byte form of the session header name, `"mcp-session-id"`.
pub open spec fn header_session_id() -> Seq<u8> {
    seq![109u8, 99u8, 112u8, 45u8, 115u8, 101u8, 115u8, 115u8, 105u8, 111u8, 110u8, 45u8, 105u8, 100u8]
}

pub fn header_session_id_bytes() -> (r: Vec<u8>)
    ensures
        r@ == header_session_id(),
{
    let mut v: Vec<u8> = Vec::new();
    v.push(109);
    v.push(99);
    v.push(112);
    v.push(45);
    v.push(115);
    v.push(101);
    v.push(115);
    v.push(115);
    v.push(105);
    v.push(111);
    v.push(110);
    v.push(45);
    v.push(105);
    v.push(100);
    proof {
        assert(v@ =~= header_session_id());
    }
    v
}

/// Byte form of the backend-selector header name, `"x-mcp-server"`.
pub open spec fn header_backend() -> Seq<u8> {
    seq![120u8, 45u8, 109u8, 99u8, 112u8, 45u8, 115u8, 101u8, 114u8, 118u8, 101u8, 114u8]
}

pub fn header_backend_bytes() -> (r: Vec<u8>)
    ensures
        r@ == header_backend(),
{
    let mut v: Vec<u8> = Vec::new();
    v.push(120);
    v.push(45);
    v.push(109);
    v.push(99);
    v.push(112);
    v.push(45);
    v.push(115);
    v.push(101);
    v.push(114);
    v.push(118);
    v.push(101);
    v.push(114);
    proof {
        assert(v@ =~= header_backend());
    }
    v
}

/// Byte form of the framing-length header name, `"content-length"`.
pub open spec fn header_content_length() -> Seq<u8> {
    seq![99u8, 111u8, 110u8, 116u8, 101u8, 110u8, 116u8, 45u8, 108u8, 101u8, 110u8, 103u8, 116u8, 104u8]
}

pub fn header_content_length_bytes() -> (r: Vec<u8>)
    ensures
        r@ == header_content_length(),
{
    let mut v: Vec<u8> = Vec::new();
    v.push(99);
    v.push(111);
    v.push(110);
    v.push(116);
    v.push(101);
    v.push(110);
    v.push(116);
    v.push(45);
    v.push(108);
    v.push(101);
    v.push(110);
    v.push(103);
    v.push(116);
    v.push(104);
    proof {
        assert(v@ =~= header_content_length());
    }
    v
}

/// Byte form of the default routing prefix for the first backend, `"server1-"`.
pub open spec fn prefix_server1() -> Seq<u8> {
    seq![115u8, 101u8, 114u8, 118u8, 101u8, 114u8, 49u8, 45u8]
}

pub fn prefix_server1_bytes() -> (r: Vec<u8>)
    ensures
        r@ == prefix_server1(),
{
    let mut v: Vec<u8> = Vec::new();
    v.push(115);
    v.push(101);
    v.push(114);
    v.push(118);
    v.push(101);
    v.push(114);
    v.push(49);
    v.push(45);
    proof {
        assert(v@ =~= prefix_server1());
    }
    v
}

/// Byte form of the default routing prefix for the second backend, `"server2-"`.
pub open spec fn prefix_server2() -> Seq<u8> {
    seq![115u8, 101u8, 114u8, 118u8, 101u8, 114u8, 50u8, 45u8]
}

pub fn prefix_server2_bytes() -> (r: Vec<u8>)
    ensures
        r@ == prefix_server2(),
{
    let mut v: Vec<u8> = Vec::new();
    v.push(115);
    v.push(101);
    v.push(114);
    v.push(118);
    v.push(101);
    v.push(114);
    v.push(50);
    v.push(45);
    proof {
        assert(v@ =~= prefix_server2());
    }
    v
}

/// Byte form of the default identity literal of the first backend, `"server1"`.
pub open spec fn literal_server1() -> Seq<u8> {
    seq![115u8, 101u8, 114u8, 118u8, 101u8, 114u8, 49u8]
}

pub fn literal_server1_bytes() -> (r: Vec<u8>)
    ensures
        r@ == literal_server1(),
{
    let mut v: Vec<u8> = Vec::new();
    v.push(115);
    v.push(101);
    v.push(114);
    v.push(118);
    v.push(101);
    v.push(114);
    v.push(49);
    proof {
        assert(v@ =~= literal_server1());
    }
    v
}

/// Byte form of the default identity literal of the second backend, `"server2"`.
pub open spec fn literal_server2() -> Seq<u8> {
    seq![115u8, 101u8, 114u8, 118u8, 101u8, 114u8, 50u8]
}

pub fn literal_server2_bytes() -> (r: Vec<u8>)
    ensures
        r@ == literal_server2(),
{
    let mut v: Vec<u8> = Vec::new();
    v.push(115);
    v.push(101);
    v.push(114);
    v.push(118);
    v.push(101);
    v.push(114);
    v.push(50);
    proof {
        assert(v@ =~= literal_server2());
    }
    v
}

} // verus!
