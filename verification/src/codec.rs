//! The wire format of the company-creation event.
//!
//! The message transport carries opaque payload bytes, so the event is
//! framed here: the company's identifier, its name, and its optional URL,
//! with every integer in big-endian order and every text field as
//! length-prefixed UTF-8 bytes. Decoding accepts exactly the byte strings
//! that encoding produces; everything else is reported as undecodable, and
//! never by a panic.

use vstd::prelude::*;

use crate::ids::Id;

verus! {

/// The 8 bytes of `n`, most significant first.
pub open spec fn be_bytes(n: u64) -> Seq<u8> {
    seq![
        ((n >> 56) & 0xff) as u8,
        ((n >> 48) & 0xff) as u8,
        ((n >> 40) & 0xff) as u8,
        ((n >> 32) & 0xff) as u8,
        ((n >> 24) & 0xff) as u8,
        ((n >> 16) & 0xff) as u8,
        ((n >> 8) & 0xff) as u8,
        (n & 0xff) as u8,
    ]
}

/// The value read back from 8 big-endian bytes.
pub open spec fn be_value(b: Seq<u8>) -> u64
    recommends
        b.len() == 8,
{
    (((b[0] as u64) << 56) | ((b[1] as u64) << 48) | ((b[2] as u64) << 40) | ((b[3] as u64) << 32)
        | ((b[4] as u64) << 24) | ((b[5] as u64) << 16) | ((b[6] as u64) << 8) | (b[7] as u64))
}

/// Reading back the written bytes yields the written value.
pub proof fn lemma_be_round_trip(n: u64)
    ensures
        be_bytes(n).len() == 8,
        be_value(be_bytes(n)) == n,
{
    assert(((((((n >> 56) & 0xff) as u8) as u64) << 56) | (((((n >> 48) & 0xff) as u8) as u64)
        << 48) | (((((n >> 40) & 0xff) as u8) as u64) << 40) | (((((n >> 32) & 0xff) as u8) as u64)
        << 32) | (((((n >> 24) & 0xff) as u8) as u64) << 24) | (((((n >> 16) & 0xff) as u8) as u64)
        << 16) | (((((n >> 8) & 0xff) as u8) as u64) << 8) | (((n & 0xff) as u8) as u64)) == n)
        by (bit_vector);
}

/// Writing the read-back value reproduces the 8 bytes.
pub proof fn lemma_be_bytes_inverse(b: Seq<u8>)
    requires
        b.len() == 8,
    ensures
        be_bytes(be_value(b)) =~= b,
{
    let b0 = b[0];
    let b1 = b[1];
    let b2 = b[2];
    let b3 = b[3];
    let b4 = b[4];
    let b5 = b[5];
    let b6 = b[6];
    let b7 = b[7];
    assert({
        let v = (((b0 as u64) << 56) | ((b1 as u64) << 48) | ((b2 as u64) << 40) | ((b3 as u64)
            << 32) | ((b4 as u64) << 24) | ((b5 as u64) << 16) | ((b6 as u64) << 8) | (b7 as u64));
        &&& ((v >> 56) & 0xff) as u8 == b0
        &&& ((v >> 48) & 0xff) as u8 == b1
        &&& ((v >> 40) & 0xff) as u8 == b2
        &&& ((v >> 32) & 0xff) as u8 == b3
        &&& ((v >> 24) & 0xff) as u8 == b4
        &&& ((v >> 16) & 0xff) as u8 == b5
        &&& ((v >> 8) & 0xff) as u8 == b6
        &&& (v & 0xff) as u8 == b7
    }) by (bit_vector);
}

/// Appends the 8 big-endian bytes of `n`.
fn push_be(out: &mut Vec<u8>, n: u64)
    ensures
        final(out)@ == old(out)@ + be_bytes(n),
{
    out.push(((n >> 56) & 0xff) as u8);
    out.push(((n >> 48) & 0xff) as u8);
    out.push(((n >> 40) & 0xff) as u8);
    out.push(((n >> 32) & 0xff) as u8);
    out.push(((n >> 24) & 0xff) as u8);
    out.push(((n >> 16) & 0xff) as u8);
    out.push(((n >> 8) & 0xff) as u8);
    out.push((n & 0xff) as u8);
    proof {
        assert(out@ =~= old(out)@ + be_bytes(n));
    }
}

/// Reads the 8 big-endian bytes at `pos`.
fn read_be(b: &Vec<u8>, pos: usize) -> (r: u64)
    requires
        pos + 8 <= b@.len(),
    ensures
        r == be_value(b@.subrange(pos as int, pos as int + 8)),
{
    let len: usize = b.len();
    assert(pos + 8 <= len);
    ((b[pos] as u64) << 56) | ((b[pos + 1] as u64) << 48) | ((b[pos + 2] as u64) << 40) | ((b[pos
        + 3] as u64) << 32) | ((b[pos + 4] as u64) << 24) | ((b[pos + 5] as u64) << 16) | ((b[pos
        + 6] as u64) << 8) | (b[pos + 7] as u64)
}

/// Appends a copy of `src`.
fn append_bytes(out: &mut Vec<u8>, src: &Vec<u8>)
    ensures
        final(out)@ == old(out)@ + src@,
{
    let n: usize = src.len();
    let mut i: usize = 0;
    proof {
        assert(out@ =~= old(out)@ + src@.subrange(0, 0));
    }
    while i < n
        invariant
            i <= n,
            n == src@.len(),
            out@ == old(out)@ + src@.subrange(0, i as int),
        decreases n - i,
    {
        out.push(src[i]);
        proof {
            assert(out@ =~= old(out)@ + src@.subrange(0, i as int + 1));
        }
        i += 1;
    }
    proof {
        assert(src@.subrange(0, n as int) =~= src@);
    }
}

/// Copies the bytes of `b` in `from..to`.
fn copy_range(b: &Vec<u8>, from: usize, to: usize) -> (r: Vec<u8>)
    requires
        from <= to,
        to <= b@.len(),
    ensures
        r@ == b@.subrange(from as int, to as int),
{
    let mut r: Vec<u8> = Vec::new();
    let mut i: usize = from;
    proof {
        assert(r@ =~= b@.subrange(from as int, from as int));
    }
    while i < to
        invariant
            from <= i <= to,
            to <= b@.len(),
            r@ == b@.subrange(from as int, i as int),
        decreases to - i,
    {
        r.push(b[i]);
        proof {
            assert(r@ =~= b@.subrange(from as int, i as int + 1));
        }
        i += 1;
    }
    r
}

/// The company-creation event payload: the company's resolved identifier,
/// its name, and its optional URL. Text fields travel as their UTF-8
/// bytes; the transport edge turns them back into strings.
pub struct CompanyEvent {
    pub id: Id,
    pub name: Vec<u8>,
    pub url: Option<Vec<u8>>,
}

/// The length bounds under which a payload is encodable: each text field
/// shorter than 2^32 bytes.
pub open spec fn event_wf(e: CompanyEvent) -> bool {
    &&& e.name@.len() < 0x1_0000_0000
    &&& match e.url {
        Option::Some(u) => u@.len() < 0x1_0000_0000,
        Option::None => true,
    }
}

/// The payload bytes of an event: identifier, length-prefixed name, then
/// a presence tag and, when present, the length-prefixed URL.
pub open spec fn encode_spec(e: CompanyEvent) -> Seq<u8> {
    be_bytes(e.id.hi) + be_bytes(e.id.lo) + be_bytes(e.name@.len() as u64) + e.name@ + match e.url {
        Option::None => seq![0u8],
        Option::Some(u) => seq![1u8] + be_bytes(u@.len() as u64) + u@,
    }
}

/// The total payload length of an event.
pub open spec fn encode_len(e: CompanyEvent) -> int {
    match e.url {
        Option::None => 25 + e.name@.len() as int,
        Option::Some(u) => 33 + e.name@.len() as int + u@.len() as int,
    }
}

/// Where each field of an event lies inside its payload bytes.
pub proof fn lemma_encode_structure(e: CompanyEvent)
    ensures
        encode_spec(e).len() == encode_len(e),
        encode_spec(e).subrange(0, 8) =~= be_bytes(e.id.hi),
        encode_spec(e).subrange(8, 16) =~= be_bytes(e.id.lo),
        encode_spec(e).subrange(16, 24) =~= be_bytes(e.name@.len() as u64),
        encode_spec(e).subrange(24, 24 + e.name@.len() as int) =~= e.name@,
        encode_spec(e)[24 + e.name@.len() as int] == (if e.url is Some {
            1u8
        } else {
            0u8
        }),
        e.url matches Option::Some(u) ==> encode_spec(e).subrange(
            25 + e.name@.len() as int,
            33 + e.name@.len() as int,
        ) =~= be_bytes(u@.len() as u64),
        e.url matches Option::Some(u) ==> encode_spec(e).subrange(
            33 + e.name@.len() as int,
            33 + e.name@.len() as int + u@.len() as int,
        ) =~= u@,
{
}

/// Frames an event for the transport.
///
/// An event whose text fields exceed the format's length bounds cannot be
/// framed; that outcome is reported, never hidden.
pub fn encode_event(e: &CompanyEvent) -> (r: Option<Vec<u8>>)
    ensures
        match r {
            Option::Some(out) => event_wf(*e) && out@ == encode_spec(*e),
            Option::None => !event_wf(*e),
        },
{
    let name_len: usize = e.name.len();
    if (name_len as u64) >= 0x1_0000_0000u64 {
        return None;
    }
    match &e.url {
        Option::Some(u) => {
            if (u.len() as u64) >= 0x1_0000_0000u64 {
                return None;
            }
        },
        Option::None => {},
    }
    let mut out: Vec<u8> = Vec::new();
    push_be(&mut out, e.id.hi);
    push_be(&mut out, e.id.lo);
    push_be(&mut out, name_len as u64);
    append_bytes(&mut out, &e.name);
    match &e.url {
        Option::None => {
            out.push(0u8);
        },
        Option::Some(u) => {
            let url_len: usize = u.len();
            out.push(1u8);
            push_be(&mut out, url_len as u64);
            append_bytes(&mut out, u);
        },
    }
    proof {
        assert(out@ =~= encode_spec(*e));
    }
    Some(out)
}

/// Unframes a payload.
///
/// Exactly the byte strings produced by [`encode_event`] decode; for every
/// other input the result is `None` — a malformed payload is reported,
/// never a panic.
pub fn decode_event(b: &Vec<u8>) -> (r: Option<CompanyEvent>)
    ensures
        match r {
            Option::Some(e) => event_wf(e) && b@ == encode_spec(e),
            Option::None => forall|e: CompanyEvent| event_wf(e) ==> encode_spec(e) != b@,
        },
{
    let total: usize = b.len();
    if total < 25 {
        proof {
            assert forall|e: CompanyEvent| event_wf(e) implies encode_spec(e) != b@ by {
                if encode_spec(e) == b@ {
                    lemma_encode_structure(e);
                }
            }
        }
        return None;
    }
    let hi = read_be(b, 0);
    let lo = read_be(b, 8);
    let nlen_u = read_be(b, 16);
    if nlen_u >= 0x1_0000_0000u64 {
        proof {
            assert forall|e: CompanyEvent| event_wf(e) implies encode_spec(e) != b@ by {
                if encode_spec(e) == b@ {
                    lemma_encode_structure(e);
                    lemma_be_round_trip(e.name@.len() as u64);
                    assert(nlen_u == e.name@.len());
                }
            }
        }
        return None;
    }
    let rest = (total - 25) as u64;
    if nlen_u > rest {
        proof {
            assert forall|e: CompanyEvent| event_wf(e) implies encode_spec(e) != b@ by {
                if encode_spec(e) == b@ {
                    lemma_encode_structure(e);
                    lemma_be_round_trip(e.name@.len() as u64);
                    assert(nlen_u == e.name@.len());
                }
            }
        }
        return None;
    }
    let n: usize = nlen_u as usize;
    let name = copy_range(b, 24, 24 + n);
    let tag = b[24 + n];
    if tag == 0 {
        if total != 25 + n {
            proof {
                assert forall|e: CompanyEvent| event_wf(e) implies encode_spec(e) != b@ by {
                    if encode_spec(e) == b@ {
                        lemma_encode_structure(e);
                        lemma_be_round_trip(e.name@.len() as u64);
                        assert(nlen_u == e.name@.len());
                    }
                }
            }
            return None;
        }
        let ev = CompanyEvent { id: Id { hi, lo }, name, url: None };
        proof {
            lemma_be_bytes_inverse(b@.subrange(0, 8));
            lemma_be_bytes_inverse(b@.subrange(8, 16));
            lemma_be_bytes_inverse(b@.subrange(16, 24));
            lemma_be_round_trip(n as u64);
            assert(b@ =~= encode_spec(ev));
        }
        return Some(ev);
    }
    if tag != 1 {
        proof {
            assert forall|e: CompanyEvent| event_wf(e) implies encode_spec(e) != b@ by {
                if encode_spec(e) == b@ {
                    lemma_encode_structure(e);
                    lemma_be_round_trip(e.name@.len() as u64);
                    assert(nlen_u == e.name@.len());
                }
            }
        }
        return None;
    }
    if (total as u64) < 33u64 + nlen_u {
        proof {
            assert forall|e: CompanyEvent| event_wf(e) implies encode_spec(e) != b@ by {
                if encode_spec(e) == b@ {
                    lemma_encode_structure(e);
                    lemma_be_round_trip(e.name@.len() as u64);
                    assert(nlen_u == e.name@.len());
                }
            }
        }
        return None;
    }
    let ulen_u = read_be(b, 25 + n);
    if ulen_u >= 0x1_0000_0000u64 {
        proof {
            assert forall|e: CompanyEvent| event_wf(e) implies encode_spec(e) != b@ by {
                if encode_spec(e) == b@ {
                    lemma_encode_structure(e);
                    lemma_be_round_trip(e.name@.len() as u64);
                    assert(nlen_u == e.name@.len());
                    if let Option::Some(u) = e.url {
                        lemma_be_round_trip(u@.len() as u64);
                        assert(ulen_u == u@.len());
                    }
                }
            }
        }
        return None;
    }
    if (total as u64) != 33u64 + nlen_u + ulen_u {
        proof {
            assert forall|e: CompanyEvent| event_wf(e) implies encode_spec(e) != b@ by {
                if encode_spec(e) == b@ {
                    lemma_encode_structure(e);
                    lemma_be_round_trip(e.name@.len() as u64);
                    assert(nlen_u == e.name@.len());
                    if let Option::Some(u) = e.url {
                        lemma_be_round_trip(u@.len() as u64);
                        assert(ulen_u == u@.len());
                    }
                }
            }
        }
        return None;
    }
    let u_start: usize = 33 + n;
    let url = copy_range(b, u_start, total);
    let ev = CompanyEvent { id: Id { hi, lo }, name, url: Some(url) };
    proof {
        lemma_be_bytes_inverse(b@.subrange(0, 8));
        lemma_be_bytes_inverse(b@.subrange(8, 16));
        lemma_be_bytes_inverse(b@.subrange(16, 24));
        lemma_be_bytes_inverse(b@.subrange(25 + n as int, 33 + n as int));
        lemma_be_round_trip(n as u64);
        lemma_be_round_trip((total - u_start) as u64);
        assert(b@ =~= encode_spec(ev));
    }
    Some(ev)
}

} // verus!
