//! The canonical binary encoding of a `(counter, raw bytes)` pair.
//!
//! Identifier derivation hashes the SCALE encoding of the pair. This module
//! states that encoding as a spec function, wraps the outside encoder behind
//! it, and proves that pairs differing in their counter encode differently.

use vstd::prelude::*;

verus! {

/// The `k` little-endian bytes of `v`.
pub open spec fn le_bytes(v: nat, k: nat) -> Seq<u8>
    decreases k,
{
    if k == 0 {
        Seq::empty()
    } else {
        seq![(v % 256) as u8] + le_bytes(v / 256, (k - 1) as nat)
    }
}

/// SCALE's compact encoding of a collection length `n` (`n` fits in a `u32`):
/// the length is shifted left by two bits and the low bits select among a
/// one-, two-, four- or five-byte form.
pub open spec fn compact_u32(n: nat) -> Seq<u8> {
    if n < 64 {
        seq![(n * 4) as u8]
    } else if n < 16384 {
        le_bytes(n * 4 + 1, 2)
    } else if n < 0x4000_0000 {
        le_bytes(n * 4 + 2, 4)
    } else {
        seq![3u8] + le_bytes(n, 4)
    }
}

/// The SCALE encoding of the pair `(counter, raw)`: the four little-endian
/// bytes of `counter`, then the compact encoding of `raw`'s length, then the
/// bytes of `raw` themselves.
pub open spec fn scale_encode_pair(counter: u32, raw: Seq<u8>) -> Seq<u8> {
    le_bytes(counter as nat, 4) + compact_u32(raw.len()) + raw
}

/// Relies on parity-scale-codec's `Encode::encode` for `(u32, &Vec<u8>)`: a
/// tuple encodes as the concatenation of its parts, a `u32` as its four
/// little-endian bytes, and a byte vector as the compact encoding of its
/// length followed by its bytes. `encode` panics on a vector longer than
/// `u32::MAX`, so such vectors are excluded here.
#[verifier::external_body]
pub fn encode_pair(counter: u32, raw: &Vec<u8>) -> (r: Vec<u8>)
    requires
        raw@.len() <= u32::MAX,
    ensures
        r@ == scale_encode_pair(counter, raw@),
{
    parity_scale_codec::Encode::encode(&(counter, raw))
}

/// `le_bytes` produces exactly `k` bytes.
pub proof fn lemma_le_bytes_len(v: nat, k: nat)
    ensures
        le_bytes(v, k).len() == k,
    decreases k,
{
    if k > 0 {
        lemma_le_bytes_len(v / 256, (k - 1) as nat);
    }
}

/// The value a four-byte little-endian sequence stands for.
pub open spec fn le4_val(s: Seq<u8>) -> int
    recommends
        s.len() == 4,
{
    s[0] + 256 * (s[1] + 256 * (s[2] + 256 * s[3]))
}

/// Reading back the four little-endian bytes of a `u32` recovers the value.
pub proof fn lemma_le4_roundtrip(v: u32)
    ensures
        le4_val(le_bytes(v as nat, 4)) == v,
{
    let n = v as nat;
    let b = le_bytes(n, 4);
    reveal_with_fuel(le_bytes, 5);
    lemma_le_bytes_len(n, 4);
    assert(b[0] == (n % 256) as u8);
    assert(b[1] == ((n / 256) % 256) as u8);
    assert(b[2] == ((n / 256 / 256) % 256) as u8);
    assert(b[3] == ((n / 256 / 256 / 256) % 256) as u8);
    assert(n / 256 / 256 / 256 < 256) by {
        assert(n < 0x1_0000_0000);
        assert(n / 256 / 256 / 256 == n / 0x100_0000) by (nonlinear_arith);
        assert(n / 0x100_0000 < 256);
    }
    assert(n / 256 / 256 / 256 % 256 == n / 256 / 256 / 256);
    assert(n / 256 / 256 == 256 * (n / 256 / 256 / 256) + n / 256 / 256 % 256);
    assert(n / 256 == 256 * (n / 256 / 256) + n / 256 % 256);
    assert(n == 256 * (n / 256) + n % 256);
}

/// Two `u32` values with the same four little-endian bytes are equal.
pub proof fn lemma_le4_injective(v1: u32, v2: u32)
    requires
        le_bytes(v1 as nat, 4) == le_bytes(v2 as nat, 4),
    ensures
        v1 == v2,
{
    lemma_le4_roundtrip(v1);
    lemma_le4_roundtrip(v2);
}

/// Pairs that differ in their counter encode differently: the first four
/// bytes of the encoding are the counter's little-endian bytes.
pub proof fn lemma_encode_pair_counter_injective(c1: u32, c2: u32, raw: Seq<u8>)
    requires
        c1 != c2,
    ensures
        scale_encode_pair(c1, raw) != scale_encode_pair(c2, raw),
{
    let e1 = scale_encode_pair(c1, raw);
    let e2 = scale_encode_pair(c2, raw);
    lemma_le_bytes_len(c1 as nat, 4);
    lemma_le_bytes_len(c2 as nat, 4);
    if e1 == e2 {
        assert forall|i: int| 0 <= i < 4 implies le_bytes(c1 as nat, 4)[i] == le_bytes(
            c2 as nat,
            4,
        )[i] by {
            assert(e1[i] == le_bytes(c1 as nat, 4)[i]);
            assert(e2[i] == le_bytes(c2 as nat, 4)[i]);
        }
        assert(le_bytes(c1 as nat, 4) =~= le_bytes(c2 as nat, 4));
        lemma_le4_injective(c1, c2);
    }
}

} // verus!
