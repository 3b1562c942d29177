//! Little-endian words on the wire.
//!
//! A property value that holds a handle arrives as the bytes of one
//! machine word.  [`le_word`] gives the number a byte sequence denotes in
//! little-endian order, and [`word_from_le8`] reads it back from an
//! eight-byte buffer.

use vstd::prelude::*;

verus! {

/// The number an arbitrary byte sequence denotes, least significant byte
/// first.
pub open spec fn le_word(s: Seq<u8>) -> int
    decreases s.len(),
{
    if s.len() == 0 {
        0
    } else {
        s.first() + 256 * le_word(s.drop_first())
    }
}

/// 256 raised to `n`: the number of values a byte sequence of length `n` can
/// denote.
pub open spec fn pow256(n: nat) -> int
    decreases n,
{
    if n == 0 {
        1
    } else {
        256 * pow256((n - 1) as nat)
    }
}

/// A byte sequence of length `n` denotes a number in `[0, pow256(n))`.
pub proof fn lemma_le_word_bound(s: Seq<u8>)
    ensures
        0 <= le_word(s) < pow256(s.len()),
    decreases s.len(),
{
    if s.len() != 0 {
        lemma_le_word_bound(s.drop_first());
    }
}

/// Reads the word an eight-byte buffer denotes in little-endian order.
pub fn word_from_le8(buf: &[u8]) -> (r: u64)
    requires
        buf@.len() == 8,
    ensures
        r as int == le_word(buf@),
{
    let mut w: u64 = 0;
    let mut i: usize = 8;
    proof {
        assert(buf@.subrange(8, 8) =~= Seq::<u8>::empty());
    }
    while i > 0
        invariant
            i <= 8,
            buf@.len() == 8,
            w as int == le_word(buf@.subrange(i as int, 8)),
        decreases i,
    {
        proof {
            lemma_le_word_bound(buf@.subrange(i as int, 8));
            assert(pow256((8 - i) as nat) <= pow256(7)) by {
                lemma_pow256_values();
                lemma_pow256_increases((8 - i) as nat, 7);
            }
            lemma_pow256_values();
            assert(buf@.subrange(i - 1, 8).drop_first() =~= buf@.subrange(i as int, 8));
        }
        i = i - 1;
        w = w * 256 + (buf[i] as u64);
    }
    proof {
        assert(buf@.subrange(0, 8) =~= buf@);
    }
    w
}

/// `pow256` grows with its argument.
proof fn lemma_pow256_increases(m: nat, n: nat)
    requires
        m <= n,
    ensures
        pow256(m) <= pow256(n),
    decreases n,
{
    if m < n {
        lemma_pow256_increases(m, (n - 1) as nat);
        lemma_pow256_positive((n - 1) as nat);
    }
}

/// `pow256` is positive.
proof fn lemma_pow256_positive(n: nat)
    ensures
        pow256(n) >= 1,
    decreases n,
{
    if n > 0 {
        lemma_pow256_positive((n - 1) as nat);
    }
}

/// The concrete values of `pow256` up to eight bytes.
proof fn lemma_pow256_values()
    ensures
        pow256(7) == 0x100000000000000,
        pow256(8) == 0x10000000000000000,
{
    reveal_with_fuel(pow256, 9);
}

} // verus!
