//! The block packer: converts a character sequence into an ordered
//! sequence of 4-byte little-endian-packed 32-bit blocks, one trailing
//! partial block (zero-padded), and the total character count. Each
//! character contributes the low 8 bits of its code point as one byte.

use vstd::prelude::*;

verus! {

/// The byte a character contributes to a block: the low 8 bits of its
/// code point. Characters outside the single-byte range are truncated.
pub open spec fn low_byte(c: char) -> u32 {
    ((c as u32) % 0x100) as u32
}

/// The byte at position `i` of the (at most 4 characters long) group `s`:
/// the low byte of the character there, or 0 past the end (zero padding).
pub open spec fn byte_at(s: Seq<char>, i: int) -> u32 {
    if 0 <= i < s.len() {
        low_byte(s[i])
    } else {
        0u32
    }
}

/// The 32-bit block packed little-endian from the up-to-4-character
/// group `s`: character 0 occupies the lowest byte, character 3 the
/// highest; absent characters contribute zero bytes.
pub open spec fn pack_block(s: Seq<char>) -> u32
    recommends
        s.len() <= 4,
{
    (byte_at(s, 0) + byte_at(s, 1) * 0x100 + byte_at(s, 2) * 0x10000 + byte_at(s, 3) * 0x1000000)
        as u32
}

/// The ordered sequence of blocks packed from the consecutive
/// non-overlapping groups of exactly 4 characters of `s`.
pub open spec fn full_blocks(s: Seq<char>) -> Seq<u32> {
    Seq::new((s.len() / 4) as nat, |i: int| pack_block(s.subrange(4 * i, 4 * i + 4)))
}

/// The tail block: the 0 to 3 characters left after the full groups,
/// packed the same way; 0 if no characters remain.
pub open spec fn tail_block(s: Seq<char>) -> u32 {
    pack_block(s.skip(4 * ((s.len() / 4) as int)))
}

/// The character count of `s`, carried as an unsigned 32-bit value
/// (wrapping modulo 2^32).
pub open spec fn wrap_len(s: Seq<char>) -> u32 {
    (s.len() % 0x1_0000_0000) as u32
}

/// Packs the group of `count` characters starting at `start` into one
/// 32-bit block, little-endian, zero-padded past `count`.
fn pack_group(chars: &Vec<char>, start: usize, count: usize) -> (k: u32)
    requires
        count <= 4,
        start + count <= chars@.len(),
    ensures
        k == pack_block(chars@.subrange(start as int, start as int + count as int)),
{
    let ghost g = chars@.subrange(start as int, start as int + count as int);
    let n: usize = chars.len();
    assert(start + count <= n);
    let mut k: u32 = 0;
    if count >= 1 {
        k = (chars[start] as u32) % 0x100;
    }
    if count >= 2 {
        k = k + ((chars[start + 1] as u32) % 0x100) * 0x100;
    }
    if count >= 3 {
        k = k + ((chars[start + 2] as u32) % 0x100) * 0x10000;
    }
    if count >= 4 {
        k = k + ((chars[start + 3] as u32) % 0x100) * 0x1000000;
    }
    k
}

/// Packs `input` into its full 4-character blocks, its tail block, and
/// its character count.
pub fn convert_pad(input: &str) -> (r: (Vec<u32>, u32, u32))
    ensures
        r.0@ == full_blocks(input@),
        r.1 == tail_block(input@),
        r.2 == wrap_len(input@),
{
    let mut chars: Vec<char> = Vec::new();
    for c in it: input.chars()
        invariant
            chars@ =~= it.seq().take(it.index()),
    {
        chars.push(c);
    }
    assert(chars@ =~= input@);

    let nblocks: usize = chars.len() / 4;

    let mut output: Vec<u32> = Vec::new();
    let mut b: usize = 0;
    while b < nblocks
        invariant
            b <= nblocks,
            nblocks == chars@.len() / 4,
            chars@.len() <= usize::MAX,
            4 * (nblocks as int) <= chars@.len(),
            chars@ == input@,
            output@ =~= full_blocks(input@).take(b as int),
        decreases nblocks - b,
    {
        assert(4 * (b as int) + 4 <= chars@.len());
        let block = pack_group(&chars, 4 * b, 4);
        output.push(block);
        b = b + 1;
        proof {
            assert(output@ =~= full_blocks(input@).take(b as int));
        }
    }
    assert(output@ =~= full_blocks(input@));

    let base: usize = 4 * nblocks;
    let rem_len: usize = chars.len() - base;
    assert(rem_len < 4);
    let output_rem = pack_group(&chars, base, rem_len);
    proof {
        assert(input@.skip(base as int) =~= input@.subrange(
            base as int,
            base as int + rem_len as int,
        ));
    }

    let count: u32 = ((chars.len() as u64) % 0x1_0000_0000) as u32;

    (output, output_rem, count)
}

} // verus!
