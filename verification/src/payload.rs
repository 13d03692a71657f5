//! Serialized form of a pending challenge: the record `{expiry, answer}`
//! that the sealer encrypts, framed as eight little-endian expiry bytes
//! followed by the answer's UTF-8 bytes.

use vstd::prelude::*;
use vstd::bytes::{
    lemma_auto_spec_u64_to_from_le_bytes, spec_u64_from_le_bytes, spec_u64_to_le_bytes,
    u64_from_le_bytes, u64_to_le_bytes,
};
use vstd::slice::{slice_subrange, slice_to_vec};

verus! {

/// The pending state of one issued challenge: the unix second at which it
/// stops being submittable, and the answer (as UTF-8 bytes) the client must
/// reproduce.
#[derive(Debug, PartialEq, Eq)]
pub struct CaptchaSessionData {
    pub exp: u64,
    pub solution: Vec<u8>,
}

/// Serialized form of a session record: the expiry as eight little-endian
/// bytes, then the answer bytes.
pub open spec fn session_bytes(exp: u64, solution: Seq<u8>) -> Seq<u8> {
    spec_u64_to_le_bytes(exp) + solution
}

/// How a byte string parses back into a session record: the first eight
/// bytes are the expiry, everything after them is the answer; anything
/// shorter than eight bytes has no expiry and is rejected.
pub open spec fn parse_session(bytes: Seq<u8>) -> Option<(u64, Seq<u8>)> {
    if bytes.len() >= 8 {
        Some(
            (
                spec_u64_from_le_bytes(bytes.subrange(0, 8)),
                bytes.subrange(8, bytes.len() as int),
            ),
        )
    } else {
        None
    }
}

/// Serialization round trip: every session record parses back unchanged from
/// its own serialized bytes.
pub proof fn lemma_session_roundtrip(exp: u64, solution: Seq<u8>)
    ensures
        parse_session(session_bytes(exp, solution)) == Some((exp, solution)),
{
    lemma_auto_spec_u64_to_from_le_bytes();
    let bytes = session_bytes(exp, solution);
    assert(bytes.subrange(0, 8) =~= spec_u64_to_le_bytes(exp));
    assert(bytes.subrange(8, bytes.len() as int) =~= solution);
}

/// Parsing is a partial inverse of serialization: bytes that parse as a
/// session record are exactly that record's serialized form.
pub proof fn lemma_parse_session_inverse(bytes: Seq<u8>)
    ensures
        parse_session(bytes) matches Some(p) ==> session_bytes(p.0, p.1) == bytes,
{
    lemma_auto_spec_u64_to_from_le_bytes();
    if bytes.len() >= 8 {
        let exp = spec_u64_from_le_bytes(bytes.subrange(0, 8));
        assert(session_bytes(exp, bytes.subrange(8, bytes.len() as int)) =~= bytes);
    }
}

/// Serializes a session record.
pub fn encode_session(exp: u64, solution: &Vec<u8>) -> (r: Vec<u8>)
    ensures
        r@ == session_bytes(exp, solution@),
{
    let mut out = u64_to_le_bytes(exp);
    let mut i: usize = 0;
    while i < solution.len()
        invariant
            i <= solution.len(),
            out@ == spec_u64_to_le_bytes(exp) + solution@.subrange(0, i as int),
        decreases solution.len() - i,
    {
        out.push(solution[i]);
        proof {
            assert(out@ =~= spec_u64_to_le_bytes(exp) + solution@.subrange(0, i + 1 as int));
        }
        i = i + 1;
    }
    proof {
        assert(solution@.subrange(0, solution@.len() as int) =~= solution@);
    }
    out
}

/// Parses serialized bytes back into a session record, exactly as
/// [`parse_session`] describes.
pub fn decode_session(bytes: &Vec<u8>) -> (r: Option<CaptchaSessionData>)
    ensures
        match r {
            Some(p) => parse_session(bytes@) == Some((p.exp, p.solution@)),
            None => parse_session(bytes@) is None,
        },
{
    if bytes.len() < 8 {
        return None;
    }
    let head = slice_subrange(bytes.as_slice(), 0, 8);
    let exp = u64_from_le_bytes(head);
    let tail = slice_subrange(bytes.as_slice(), 8, bytes.len());
    let solution = slice_to_vec(tail);
    Some(CaptchaSessionData { exp, solution })
}

} // verus!
