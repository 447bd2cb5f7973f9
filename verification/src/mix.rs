//! The Murmur3 x86_32 mixing and finalization pipeline: consumes packed
//! blocks, a tail block, the input length and a seed, and produces the
//! 32-bit hash. All arithmetic is unsigned 32-bit with wraparound.

use vstd::prelude::*;

verus! {

/// First block-scrambling multiplier.
pub const C1: u32 = 0xcc9e2d51;

/// Second block-scrambling multiplier.
pub const C2: u32 = 0x1b873593;

/// Rotation applied between the two block-scrambling multiplications.
pub const R1: u32 = 15;

/// Rotation applied to the accumulator in each mixing round.
pub const R2: u32 = 13;

/// Accumulator multiplier of the mixing round.
pub const M: u32 = 5;

/// Accumulator increment of the mixing round.
pub const N: u32 = 0xe6546b64;

/// First finalization multiplier.
pub const F1: u32 = 0x85ebca6b;

/// Second finalization multiplier.
pub const F2: u32 = 0xc2b2ae35;

/// Unsigned 32-bit multiplication, wrapping modulo 2^32.
pub open spec fn wmul(x: u32, y: u32) -> u32 {
    vstd::wrapping::u32_specs::wrapping_mul(x, y)
}

/// Unsigned 32-bit addition, wrapping modulo 2^32.
pub open spec fn wadd(x: u32, y: u32) -> u32 {
    vstd::wrapping::u32_specs::wrapping_add(x, y)
}

/// Left rotation of a 32-bit value by `n` bits, for `0 < n < 32`.
pub open spec fn spec_rotl(x: u32, n: u32) -> u32
    recommends
        0 < n < 32,
{
    (x << n) | (x >> ((32 - n) as u32))
}

/// Left rotation of a 32-bit value by `n` bits.
pub fn rotl(x: u32, n: u32) -> (r: u32)
    requires
        0 < n < 32,
    ensures
        r == spec_rotl(x, n),
{
    (x << n) | (x >> (32 - n))
}

/// The per-block scrambling applied to a block (and to the tail block)
/// before it is folded into the accumulator: multiply by `C1`, rotate
/// left by `R1`, multiply by `C2`, all wrapping.
pub open spec fn scramble(k: u32) -> u32 {
    wmul(spec_rotl(wmul(k, C1), R1), C2)
}

/// One full mixing round: fold the scrambled block `k` into the
/// accumulator `h`, then rotate the accumulator left by `R2`, multiply
/// by `M` and add `N`, all wrapping.
pub open spec fn mix_round(h: u32, k: u32) -> u32 {
    wadd(wmul(spec_rotl(h ^ scramble(k), R2), M), N)
}

/// The accumulator after folding every block of `blocks`, in order,
/// into the initial accumulator `h` by full mixing rounds.
pub open spec fn mix_blocks(h: u32, blocks: Seq<u32>) -> u32
    decreases blocks.len(),
{
    if blocks.len() == 0 {
        h
    } else {
        mix_round(mix_blocks(h, blocks.drop_last()), blocks.last())
    }
}

/// The finalization (avalanche) step: xor-shift by 16, multiply by `F1`,
/// xor-shift by 13, multiply by `F2`, xor-shift by 16, all wrapping.
pub open spec fn avalanche(h: u32) -> u32 {
    let a = wmul(h ^ (h >> 16), F1);
    let b = wmul(a ^ (a >> 13), F2);
    b ^ (b >> 16)
}

/// The hash of packed input: mix every full block into the seed, xor in
/// the scrambled tail block (with no round step), xor in the length, and
/// finalize.
pub open spec fn spec_hash(blocks: Seq<u32>, tail: u32, len: u32, seed: u32) -> u32 {
    avalanche((mix_blocks(seed, blocks) ^ scramble(tail)) ^ len)
}

/// The scrambling of a zero block is zero, so a zero tail block adds
/// nothing to the accumulator it is xored into.
pub proof fn lemma_scramble_zero()
    ensures
        scramble(0) == 0,
{
    assert(wmul(0u32, C1) == 0);
    assert(spec_rotl(0u32, R1) == 0) by (bit_vector);
    assert(wmul(0u32, C2) == 0);
}

/// Computes the Murmur3 x86_32 hash from the packed form of the input:
/// the full blocks `key`, the tail block `rem`, the character count
/// `len`, and the caller's `seed`.
pub fn murmur3_hash(key: Vec<u32>, rem: u32, len: u32, seed: u32) -> (hash: u32)
    ensures
        hash == spec_hash(key@, rem, len, seed),
{
    let mut hash: u32 = seed;

    let mut i: usize = 0;
    while i < key.len()
        invariant
            i <= key.len(),
            hash == mix_blocks(seed, key@.take(i as int)),
        decreases key.len() - i,
    {
        let mut k: u32 = key[i];

        k = k.wrapping_mul(C1);
        k = rotl(k, R1);
        k = k.wrapping_mul(C2);

        hash = hash ^ k;

        hash = rotl(hash, R2);
        hash = hash.wrapping_mul(M).wrapping_add(N);

        i = i + 1;
        proof {
            assert(key@.take(i as int).drop_last() =~= key@.take(i - 1));
            assert(key@.take(i as int).last() == key@[i - 1]);
        }
    }
    proof {
        assert(key@.take(key@.len() as int) =~= key@);
    }

    let mut r: u32 = rem.wrapping_mul(C1);
    r = rotl(r, R1);
    r = r.wrapping_mul(C2);

    hash = hash ^ r;

    hash = hash ^ len;

    hash = hash ^ (hash >> 16);
    hash = hash.wrapping_mul(F1);
    hash = hash ^ (hash >> 13);
    hash = hash.wrapping_mul(F2);
    hash = hash ^ (hash >> 16);

    hash
}

} // verus!
