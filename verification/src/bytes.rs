//! Fixed-width integers read out of byte strings, as a fuzzing harness
//! draws its inputs.
use crate::bigint::{le_unsigned, pow256};
use vstd::prelude::*;

verus! {

/// The eight bytes of `data` from `offset` on, with zeros past the end.
pub open spec fn padded_bytes(data: Seq<u8>, offset: int) -> Seq<u8> {
    Seq::new(
        8,
        |k: int|
            if 0 <= offset + k < data.len() {
                data[offset + k]
            } else {
                0u8
            },
    )
}

/// The value of eight little-endian bytes read as a two's-complement
/// `i64`.
pub open spec fn le_i64_value(s: Seq<u8>) -> int {
    if le_unsigned(s) >= 0x8000_0000_0000_0000 {
        le_unsigned(s) - 0x1_0000_0000_0000_0000
    } else {
        le_unsigned(s) as int
    }
}

/// A suffix of a byte string is worth its first byte plus 256 times the
/// rest.
proof fn lemma_le_suffix(s: Seq<u8>, k: int)
    requires
        0 <= k < s.len(),
    ensures
        le_unsigned(s.subrange(k, s.len() as int)) == s[k] as nat + 256 * le_unsigned(
            s.subrange(k + 1, s.len() as int),
        ),
{
    let t = s.subrange(k, s.len() as int);
    assert(t.drop_first() =~= s.subrange(k + 1, s.len() as int));
}

/// Powers of 256 grow with the exponent.
proof fn lemma_pow256_monotone(a: nat, b: nat)
    requires
        a <= b,
    ensures
        pow256(a) <= pow256(b),
    decreases b - a,
{
    if a < b {
        lemma_pow256_monotone(a, (b - 1) as nat);
    }
}

/// The `i64` in the eight little-endian bytes of `data` at `offset`;
/// bytes past the end of `data` count as zero.
pub fn i64_at(data: &[u8], offset: usize) -> (r: i64)
    ensures
        r == le_i64_value(padded_bytes(data@, offset as int)),
{
    let ghost s = padded_bytes(data@, offset as int);
    let mut acc: u64 = 0;
    let mut k: usize = 8;
    proof {
        assert(s.subrange(8, 8) =~= Seq::<u8>::empty());
        reveal_with_fuel(pow256, 9);
    }
    while k > 0
        invariant
            k <= 8,
            s == padded_bytes(data@, offset as int),
            acc as nat == le_unsigned(s.subrange(k as int, 8)),
            acc < pow256((8 - k) as nat),
            pow256(7) == 0x100_0000_0000_0000,
        decreases k,
    {
        k = k - 1;
        let byte: u8 = if offset < data.len() && k < data.len() - offset {
            data[offset + k]
        } else {
            0
        };
        assert(byte == s[k as int]);
        proof {
            lemma_le_suffix(s, k as int);
            assert(pow256((8 - k) as nat) == 256 * pow256((7 - k) as nat));
            lemma_pow256_monotone((7 - k) as nat, 7);
        }
        acc = byte as u64 + 256 * acc;
    }
    assert(s.subrange(0, 8) =~= s);
    if acc >= 0x8000_0000_0000_0000 {
        let high: u64 = acc - 0x8000_0000_0000_0000;
        (high as i64) - 0x7FFF_FFFF_FFFF_FFFF - 1
    } else {
        acc as i64
    }
}

} // verus!
