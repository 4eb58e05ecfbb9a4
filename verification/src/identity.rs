//! Identifier and attribute derivation.
//!
//! An identifier is the SHA-256 digest of the SCALE encoding of
//! `(counter, raw bytes)`; the attribute is decided by the parity of the raw
//! input's length. Both derivations are pure functions of their inputs.

use vstd::prelude::*;
use crate::codec::{encode_pair, scale_encode_pair};

verus! {

/// The two-valued attribute of a record, derived from its raw input bytes.
#[derive(Clone, Copy, PartialEq, Eq, Structural, Debug)]
pub enum Gender {
    Male,
    Female,
}

/// A fixed-size, hash-derived identifier: the primary key of a record.
#[derive(Clone, Copy, Debug)]
pub struct Hash {
    pub bytes: [u8; 32],
}

impl View for Hash {
    type V = Seq<u8>;

    open spec fn view(&self) -> Seq<u8> {
        self.bytes@
    }
}

impl PartialEq for Hash {
    fn eq(&self, other: &Hash) -> (r: bool) {
        let mut i: usize = 0;
        while i < 32
            invariant
                i <= 32,
                forall|j: int| 0 <= j < i ==> self.bytes@[j] == other.bytes@[j],
            decreases 32 - i,
        {
            if self.bytes[i] != other.bytes[i] {
                return false;
            }
            i = i + 1;
        }
        assert(self.bytes@ =~= other.bytes@);
        true
    }
}

impl Eq for Hash {

}

impl vstd::std_specs::cmp::PartialEqSpecImpl for Hash {
    open spec fn obeys_eq_spec() -> bool {
        true
    }

    open spec fn eq_spec(&self, other: &Hash) -> bool {
        self@ == other@
    }
}

/// The attribute an input derives: the "even" value for raw bytes of even
/// length, the "odd" value otherwise.
pub open spec fn gender_of(raw: Seq<u8>) -> Gender {
    if raw.len() % 2 == 0 {
        Gender::Male
    } else {
        Gender::Female
    }
}

/// Names the SHA-256 digest of a byte sequence: a fixed function of the
/// input bytes alone, 32 bytes long.
pub uninterp spec fn sha256_of(input: Seq<u8>) -> Seq<u8>;

/// Relies on `ink_env::hash_bytes` with the `Sha2x256` hasher: it computes
/// the SHA-256 digest of the input bytes, a value that depends on those
/// bytes alone.
#[verifier::external_body]
fn sha256(input: &Vec<u8>) -> (r: [u8; 32])
    ensures
        r@ == sha256_of(input@),
{
    let mut output: [u8; 32] = [0u8; 32];
    ink_env::hash_bytes::<ink_env::hash::Sha2x256>(input.as_slice(), &mut output);
    output
}

/// The identifier derived from raw bytes and a counter: the SHA-256 digest
/// of the SCALE encoding of the pair.
pub open spec fn dna_of(raw: Seq<u8>, counter: u32) -> Seq<u8> {
    sha256_of(scale_encode_pair(counter, raw))
}

/// Derives the attribute of a record from its raw input bytes. Total: every
/// byte sequence, the empty one included, has an attribute.
pub fn gen_gender(dna: &Vec<u8>) -> (r: Result<Gender, crate::registry::Error>)
    ensures
        r == Ok::<Gender, crate::registry::Error>(gender_of(dna@)),
{
    let mut res = Gender::Female;
    if dna.len() % 2 == 0 {
        res = Gender::Male;
    }
    Ok(res)
}

/// Derives the identifier of a record from its raw input bytes and the
/// current counter value.
pub fn gen_dna(dna: Vec<u8>, block_number: u32) -> (r: Hash)
    requires
        dna@.len() <= u32::MAX,
    ensures
        r@ == dna_of(dna@, block_number),
{
    let encoded = encode_pair(block_number, &dna);
    Hash { bytes: sha256(&encoded) }
}

/// Identifier derivation is a pure function: two derivations from identical
/// raw bytes and identical counters yield identical identifiers.
pub proof fn lemma_dna_deterministic(raw1: Seq<u8>, counter1: u32, raw2: Seq<u8>, counter2: u32)
    requires
        raw1 == raw2,
        counter1 == counter2,
    ensures
        dna_of(raw1, counter1) == dna_of(raw2, counter2),
{
}

/// Derivations of the same raw bytes at different counters hash different
/// encodings. The identifiers themselves coincide only where the digests of
/// those two distinct encodings collide.
pub proof fn lemma_distinct_counter_distinct_encoding(raw: Seq<u8>, c1: u32, c2: u32)
    requires
        c1 != c2,
    ensures
        scale_encode_pair(c1, raw) != scale_encode_pair(c2, raw),
{
    crate::codec::lemma_encode_pair_counter_injective(c1, c2, raw);
}

} // verus!
