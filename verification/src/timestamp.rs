use vstd::prelude::*;

verus! {

use vstd::arithmetic::div_mod::{lemma_fundamental_div_mod, lemma_mod_bound};

/// The fixed-width little-endian byte encoding of a timestamp, an unsigned
/// count of seconds since the epoch.
pub open spec fn ts_bytes(t: u64) -> Seq<u8> {
    let q1 = t / 256;
    let q2 = q1 / 256;
    let q3 = q2 / 256;
    let q4 = q3 / 256;
    let q5 = q4 / 256;
    let q6 = q5 / 256;
    let q7 = q6 / 256;
    seq![
        (t % 256) as u8,
        (q1 % 256) as u8,
        (q2 % 256) as u8,
        (q3 % 256) as u8,
        (q4 % 256) as u8,
        (q5 % 256) as u8,
        (q6 % 256) as u8,
        (q7 % 256) as u8,
    ]
}

/// The integer value of an eight-byte little-endian sequence.
pub open spec fn le64(s: Seq<u8>) -> int
    recommends
        s.len() == 8,
{
    s[0] + 256 * (s[1] + 256 * (s[2] + 256 * (s[3] + 256 * (s[4] + 256 * (s[5] + 256 * (s[6] + 256 * (s[7] as int)))))))
}

/// The timestamp held by an eight-byte little-endian sequence.
pub open spec fn le64_u64(s: Seq<u8>) -> u64
    recommends
        s.len() == 8,
{
    le64(s) as u64
}

/// The value of an eight-byte sequence fits in a timestamp.
pub proof fn lemma_le64_bounds(s: Seq<u8>)
    requires
        s.len() == 8,
    ensures
        0 <= le64(s) < 0x10000000000000000,
        le64_u64(s) == le64(s),
{
}

/// Encoding a timestamp and reading the bytes back yields the same
/// timestamp: the stored form loses nothing.
pub proof fn lemma_ts_roundtrip(t: u64)
    ensures
        ts_bytes(t).len() == 8,
        le64(ts_bytes(t)) == t,
        le64_u64(ts_bytes(t)) == t,
{
    let x = t as int;
    let q1 = x / 256;
    let q2 = q1 / 256;
    let q3 = q2 / 256;
    let q4 = q3 / 256;
    let q5 = q4 / 256;
    let q6 = q5 / 256;
    let q7 = q6 / 256;
    lemma_fundamental_div_mod(x, 256);
    lemma_mod_bound(x, 256);
    lemma_fundamental_div_mod(q1, 256);
    lemma_mod_bound(q1, 256);
    lemma_fundamental_div_mod(q2, 256);
    lemma_mod_bound(q2, 256);
    lemma_fundamental_div_mod(q3, 256);
    lemma_mod_bound(q3, 256);
    lemma_fundamental_div_mod(q4, 256);
    lemma_mod_bound(q4, 256);
    lemma_fundamental_div_mod(q5, 256);
    lemma_mod_bound(q5, 256);
    lemma_fundamental_div_mod(q6, 256);
    lemma_mod_bound(q6, 256);
    lemma_fundamental_div_mod(q7, 256);
    lemma_mod_bound(q7, 256);
    assert(q1 < 0x100000000000000);
    assert(q2 < 0x1000000000000);
    assert(q3 < 0x10000000000);
    assert(q4 < 0x100000000);
    assert(q5 < 0x1000000);
    assert(q6 < 0x10000);
    assert(q7 < 0x100);
    assert(q7 % 256 == q7);
}

/// Encodes a timestamp in its fixed-width little-endian form.
pub fn encode_ts(t: u64) -> (r: Vec<u8>)
    ensures
        r@ == ts_bytes(t),
        r@.len() == 8,
{
    let q1: u64 = t / 256;
    let q2: u64 = q1 / 256;
    let q3: u64 = q2 / 256;
    let q4: u64 = q3 / 256;
    let q5: u64 = q4 / 256;
    let q6: u64 = q5 / 256;
    let q7: u64 = q6 / 256;
    let mut v: Vec<u8> = Vec::new();
    v.push((t % 256) as u8);
    v.push((q1 % 256) as u8);
    v.push((q2 % 256) as u8);
    v.push((q3 % 256) as u8);
    v.push((q4 % 256) as u8);
    v.push((q5 % 256) as u8);
    v.push((q6 % 256) as u8);
    v.push((q7 % 256) as u8);
    proof {
        assert(v@ =~= ts_bytes(t));
    }
    v
}

/// Decodes a stored value: accepts exactly eight little-endian bytes and
/// rejects every other length.
pub fn decode_ts(v: &Vec<u8>) -> (r: Option<u64>)
    ensures
        v@.len() == 8 ==> r == Some(le64_u64(v@)),
        v@.len() != 8 ==> r is None,
{
    if v.len() != 8 {
        return None;
    }
    let b0 = v[0];
    let b1 = v[1];
    let b2 = v[2];
    let b3 = v[3];
    let b4 = v[4];
    let b5 = v[5];
    let b6 = v[6];
    let b7 = v[7];
    let a1: u64 = b7 as u64;
    let a2: u64 = a1 * 256 + (b6 as u64);
    let a3: u64 = a2 * 256 + (b5 as u64);
    let a4: u64 = a3 * 256 + (b4 as u64);
    let a5: u64 = a4 * 256 + (b3 as u64);
    let a6: u64 = a5 * 256 + (b2 as u64);
    let a7: u64 = a6 * 256 + (b1 as u64);
    let a8: u64 = a7 * 256 + (b0 as u64);
    proof {
        lemma_le64_bounds(v@);
        assert(le64(v@) == a8 as int);
    }
    Some(a8)
}

} // verus!
