//! MurmurHash3 x86_32: a 32-bit non-cryptographic hash of a character
//! sequence under a caller-supplied seed, for fingerprinting uses such as
//! hash-table bucketing or deduplication keys.

pub mod mix;
pub mod pack;

pub use mix::murmur3_hash;
pub use pack::convert_pad;

use vstd::prelude::*;

verus! {

/// The MurmurHash3 x86_32 value of the character sequence `s` under
/// `seed`: the full blocks mixed into the seed, the scrambled tail block
/// and the length folded in, and the result finalized.
pub open spec fn spec_murmur3(s: Seq<char>, seed: u32) -> u32 {
    mix::spec_hash(pack::full_blocks(s), pack::tail_block(s), pack::wrap_len(s), seed)
}

/// Computes the MurmurHash3 x86_32 hash of `input` under `seed`. Total:
/// every input text and every seed are accepted, and the call always
/// returns a hash; empty input is well-defined.
pub fn murmur3(input: &str, seed: u32) -> (hash: u32)
    ensures
        hash == spec_murmur3(input@, seed),
{
    let triple = pack::convert_pad(input);
    mix::murmur3_hash(triple.0, triple.1, triple.2, seed)
}

/// Determinism: the hash is a function of the input's character sequence
/// and the seed alone, so repeated invocations on the same input and seed
/// yield identical output.
pub proof fn lemma_deterministic(s1: Seq<char>, s2: Seq<char>, seed1: u32, seed2: u32)
    requires
        s1 == s2,
        seed1 == seed2,
    ensures
        spec_murmur3(s1, seed1) == spec_murmur3(s2, seed2),
{
}

/// Empty input yields no blocks, a zero tail block and a zero length, and
/// the zero tail and length xors leave the seed unchanged: the hash of
/// the empty sequence under any seed is the finalization of the seed
/// alone.
pub proof fn lemma_empty_input(seed: u32)
    ensures
        spec_murmur3(Seq::<char>::empty(), seed) == mix::avalanche(seed),
{
    let s = Seq::<char>::empty();
    assert(pack::full_blocks(s) =~= Seq::<u32>::empty());
    assert(s.skip(0) =~= s);
    mix::lemma_scramble_zero();
    assert((seed ^ 0u32) ^ 0u32 == seed) by (bit_vector);
}

/// An input whose length is an exact multiple of 4 has a tail block of 0,
/// and the degenerate tail xor contributes nothing: the hash equals the
/// finalization of the mixed blocks and the length alone, the same result
/// as if the tail step were skipped entirely.
pub proof fn lemma_block_boundary(s: Seq<char>, seed: u32)
    requires
        s.len() % 4 == 0,
    ensures
        pack::tail_block(s) == 0,
        spec_murmur3(s, seed) == mix::avalanche(
            mix::mix_blocks(seed, pack::full_blocks(s)) ^ pack::wrap_len(s),
        ),
{
    assert(4 * ((s.len() / 4) as int) == s.len() as int);
    assert(s.skip(s.len() as int) =~= Seq::<char>::empty());
    mix::lemma_scramble_zero();
    let h = mix::mix_blocks(seed, pack::full_blocks(s));
    assert(h ^ 0u32 == h) by (bit_vector);
}

} // verus!
