//! The rolling hash: a deterministic 64-bit fingerprint of a byte sequence,
//! computed by folding each byte into an accumulator with wraparound
//! (modulo 2^64) multiply-and-add. Not a cryptographic primitive.

use vstd::prelude::*;
use vstd::string::StringSliceAdditionalSpecFns;

verus! {

/// One fold step: multiply the accumulator by 31, add the byte, reduce
/// modulo 2^64.
pub open spec fn hash_step(acc: u64, b: u8) -> u64 {
    ((acc * 31 + b) % 0x1_0000_0000_0000_0000) as u64
}

/// The hash of a byte sequence: starting from 0, fold `hash_step` over the
/// bytes in order.
pub open spec fn hash_of(bytes: Seq<u8>) -> u64
    decreases bytes.len(),
{
    if bytes.len() == 0 {
        0u64
    } else {
        hash_step(hash_of(bytes.drop_last()), bytes.last())
    }
}

/// The empty byte sequence hashes to 0.
pub proof fn lemma_hash_of_empty()
    ensures
        hash_of(Seq::<u8>::empty()) == 0,
{
}

/// A string with no characters has an empty byte encoding, so it hashes
/// to 0.
pub proof fn lemma_hash_of_empty_string(s: Seq<char>)
    requires
        s.len() == 0,
    ensures
        hash_of(vstd::utf8::encode_utf8(s)) == 0,
{
    assert(vstd::utf8::encode_utf8(s) =~= Seq::<u8>::empty());
}

/// Determinism: any two hash results over the same byte sequence are equal,
/// so repeated calls of `compute_hash` on one input return one value.
pub proof fn lemma_hash_deterministic(h1: u64, h2: u64, bytes: Seq<u8>)
    requires
        h1 == hash_of(bytes),
        h2 == hash_of(bytes),
    ensures
        h1 == h2,
{
}

/// Rolling property: the hash of a sequence with one byte appended is the
/// fold step applied to the hash of the sequence and that byte.
pub proof fn lemma_hash_of_push(bytes: Seq<u8>, b: u8)
    ensures
        hash_of(bytes.push(b)) == hash_step(hash_of(bytes), b),
{
    assert(bytes.push(b).drop_last() =~= bytes);
    assert(bytes.push(b).last() == b);
}

/// The wrapping multiply-and-add performed on machine words equals the
/// single modulo-2^64 reduction that `hash_step` specifies.
proof fn lemma_wrapping_step(acc: u64, b: u8)
    ensures
        acc.wrapping_mul(31).wrapping_add(b as u64) == hash_step(acc, b),
{
    let r: int = 0x1_0000_0000_0000_0000;
    let p: int = acc * 31;
    let m: int = acc.wrapping_mul(31) as int;
    assert(m == p % r);
    vstd::arithmetic::div_mod::lemma_small_mod(b as nat, r as nat);
    vstd::arithmetic::div_mod::lemma_add_mod_noop(p, b as int, r);
    let s: int = m + b;
    if s < r {
        vstd::arithmetic::div_mod::lemma_small_mod(s as nat, r as nat);
    } else {
        vstd::arithmetic::div_mod::lemma_mod_sub_multiples_vanish(s, r);
        vstd::arithmetic::div_mod::lemma_small_mod((s - r) as nat, r as nat);
    }
}

/// Computes the 64-bit rolling hash of the byte encoding of `input`.
/// Total over all inputs, deterministic, and free of side effects: the
/// result is a function of the input characters alone.
pub fn compute_hash(input: &str) -> (h: u64)
    ensures
        h == hash_of(input.spec_bytes()),
{
    let bytes: &[u8] = input.as_bytes();
    let mut hash: u64 = 0;
    let mut i: usize = 0;
    while i < bytes.len()
        invariant
            i <= bytes@.len(),
            bytes@ == input.spec_bytes(),
            hash == hash_of(bytes@.take(i as int)),
        decreases bytes@.len() - i,
    {
        let b = bytes[i];
        proof {
            assert(bytes@.take(i + 1).drop_last() =~= bytes@.take(i as int));
            assert(bytes@.take(i + 1).last() == b);
            lemma_wrapping_step(hash, b);
        }
        hash = hash.wrapping_mul(31).wrapping_add(b as u64);
        i = i + 1;
    }
    proof {
        assert(bytes@.take(bytes@.len() as int) =~= bytes@);
    }
    hash
}

} // verus!
