//! RFC 1071 checksum.
//!
//! The 16-bit one's-complement sum used by VRRPv2: bytes are paired into
//! big-endian 16-bit words (an odd trailing byte is padded with a zero on
//! the right), summed, and the carries above 16 bits are folded back in.
//! A received PDU is valid when the folded sum over the whole PDU,
//! checksum field included, equals `0xFFFF`.

use vstd::prelude::*;
use vstd::arithmetic::div_mod::{
    lemma_add_mod_noop, lemma_fundamental_div_mod, lemma_mod_multiples_vanish, lemma_small_mod,
    lemma_sub_mod_noop,
};

verus! {

/// The plain integer sum of the big-endian 16-bit words of `b`;
/// an odd trailing byte counts as the high half of a final word.
pub open spec fn sum16(b: Seq<u8>) -> int
    decreases b.len(),
{
    if b.len() == 0 {
        0
    } else if b.len() == 1 {
        (b[0] as int) * 256
    } else {
        (b[0] as int) * 256 + (b[1] as int) + sum16(b.skip(2))
    }
}

/// One's-complement folding: add the carry above 16 bits back into the
/// low 16 bits until none is left.
pub open spec fn fold1c(x: int) -> int
    recommends
        x >= 0,
    decreases x,
{
    if x < 0x10000 {
        x
    } else {
        fold1c(x / 0x10000 + x % 0x10000)
    }
}

/// The folded one's-complement sum of `b`: what the wire check compares
/// against `0xFFFF`.
pub open spec fn rfc1071_spec(b: Seq<u8>) -> int {
    fold1c(sum16(b))
}

pub proof fn lemma_sum16_nonneg(b: Seq<u8>)
    ensures
        sum16(b) >= 0,
    decreases b.len(),
{
    if b.len() >= 2 {
        lemma_sum16_nonneg(b.skip(2));
    }
}

/// Folding stays within one unsigned 16-bit word.
pub proof fn lemma_fold1c_bounds(x: int)
    requires
        x >= 0,
    ensures
        0 <= fold1c(x) <= 0xFFFF,
    decreases x,
{
    if x >= 0x10000 {
        lemma_fold1c_bounds(x / 0x10000 + x % 0x10000);
    }
}

/// Folding never turns a positive sum into zero.
pub proof fn lemma_fold1c_pos(x: int)
    requires
        x > 0,
    ensures
        fold1c(x) > 0,
    decreases x,
{
    if x >= 0x10000 {
        lemma_fold1c_pos(x / 0x10000 + x % 0x10000);
    }
}

/// Folding preserves the residue modulo 0xFFFF: adding the carry back in
/// is exact one's-complement arithmetic.
pub proof fn lemma_fold1c_mod(x: int)
    requires
        x >= 0,
    ensures
        fold1c(x) % 0xFFFF == x % 0xFFFF,
    decreases x,
{
    if x >= 0x10000 {
        let q = x / 0x10000;
        let r = x % 0x10000;
        lemma_fundamental_div_mod(x, 0x10000);
        assert(x == 0xFFFF * q + (q + r));
        lemma_mod_multiples_vanish(q, q + r, 0xFFFF);
        lemma_fold1c_mod(q + r);
    }
}

/// Folding a partial sum before adding more words does not change the
/// final folded value.
pub proof fn lemma_fold1c_rejoin(x: int, w: int)
    requires
        x >= 0,
        w >= 0,
    ensures
        fold1c(fold1c(x) + w) == fold1c(x + w),
{
    let a = fold1c(fold1c(x) + w);
    let b = fold1c(x + w);
    lemma_fold1c_bounds(x);
    lemma_fold1c_bounds(fold1c(x) + w);
    lemma_fold1c_bounds(x + w);
    lemma_fold1c_mod(x);
    lemma_fold1c_mod(fold1c(x) + w);
    lemma_fold1c_mod(x + w);
    lemma_add_mod_noop(fold1c(x), w, 0xFFFF);
    lemma_add_mod_noop(x, w, 0xFFFF);
    assert(a % 0xFFFF == b % 0xFFFF);
    if x + w > 0 {
        if x > 0 {
            lemma_fold1c_pos(x);
        }
        lemma_fold1c_pos(fold1c(x) + w);
        lemma_fold1c_pos(x + w);
    }
}

/// Appending one full word to an even-length prefix adds that word to the
/// sum.
pub proof fn lemma_sum16_take_pair(b: Seq<u8>, i: int)
    requires
        0 <= i,
        i % 2 == 0,
        i + 2 <= b.len(),
    ensures
        sum16(b.take(i + 2)) == sum16(b.take(i)) + (b[i] as int) * 256 + (b[i + 1] as int),
    decreases i,
{
    if i == 0 {
        assert(b.take(2).skip(2) =~= b.take(0));
    } else {
        lemma_sum16_take_pair(b.skip(2), i - 2);
        assert(b.take(i + 2).skip(2) =~= b.skip(2).take(i));
        assert(b.take(i).skip(2) =~= b.skip(2).take(i - 2));
    }
}

/// Appending a final odd byte to an even-length prefix adds it as the high
/// half of a padded word.
pub proof fn lemma_sum16_take_odd(b: Seq<u8>, i: int)
    requires
        0 <= i,
        i % 2 == 0,
        i + 1 <= b.len(),
    ensures
        sum16(b.take(i + 1)) == sum16(b.take(i)) + (b[i] as int) * 256,
    decreases i,
{
    if i == 0 {
        assert(b.take(1).len() == 1);
    } else {
        lemma_sum16_take_odd(b.skip(2), i - 2);
        assert(b.take(i + 1).skip(2) =~= b.skip(2).take(i - 1));
        assert(b.take(i).skip(2) =~= b.skip(2).take(i - 2));
    }
}

/// Overwriting one zeroed word adds its value to the sum.
pub proof fn lemma_sum16_update_word(b: Seq<u8>, k: int, hi: u8, lo: u8)
    requires
        0 <= k,
        k % 2 == 0,
        k + 2 <= b.len(),
        b[k] == 0,
        b[k + 1] == 0,
    ensures
        sum16(b.update(k, hi).update(k + 1, lo)) == sum16(b) + (hi as int) * 256 + (lo as int),
    decreases k,
{
    let b2 = b.update(k, hi).update(k + 1, lo);
    if k == 0 {
        assert(b2.skip(2) =~= b.skip(2));
    } else {
        lemma_sum16_update_word(b.skip(2), k - 2, hi, lo);
        assert(b2.skip(2) =~= b.skip(2).update(k - 2, hi).update(k - 1, lo));
    }
}

/// Inserting the complement of the folded sum makes the folded sum over
/// the whole come out as 0xFFFF: the wire validity check.
pub proof fn lemma_fold1c_insert_complement(s: int)
    requires
        s >= 0,
    ensures
        fold1c(s + (0xFFFF - fold1c(s))) == 0xFFFF,
{
    let f = fold1c(s);
    lemma_fold1c_bounds(s);
    let x = s + (0xFFFF - f);
    // s - f >= 0: below 0x10000 folding is the identity, above it the
    // folded value is at most 0xFFFF
    assert(s - f >= 0);
    lemma_fold1c_mod(s);
    lemma_sub_mod_noop(s, f, 0xFFFF);
    assert((s - f) % 0xFFFF == 0);
    lemma_mod_multiples_vanish(1, s - f, 0xFFFF);
    assert(x == 0xFFFF * 1 + (s - f));
    assert(x % 0xFFFF == 0);
    lemma_fold1c_mod(x);
    lemma_fold1c_bounds(x);
    lemma_fold1c_pos(x);
    if fold1c(x) < 0xFFFF {
        lemma_small_mod(fold1c(x) as nat, 0xFFFF);
        assert(false);
    }
}

/// One folding step: after at most one carry add-back, a sum of two
/// 16-bit quantities is fully folded.
fn fold_step(sum: u32) -> (r: u32)
    requires
        sum <= 0x1FFFE,
    ensures
        r <= 0xFFFF,
        r as int == fold1c(sum as int),
{
    if sum > 0xFFFF {
        proof {
            assert((sum >> 16) == 1u32 && (sum & 0xFFFF) == sum - 0x10000) by (bit_vector)
                requires
                    0xFFFF < sum && sum <= 0x1FFFE,
            ;
            assert(sum as int / 0x10000 == 1 && sum as int % 0x10000 == sum - 0x10000) by {
                lemma_fundamental_div_mod(sum as int, 0x10000);
            };
            assert(fold1c(sum as int) == fold1c(sum as int / 0x10000 + sum as int % 0x10000));
            assert(fold1c(sum as int - 0xFFFF) == sum as int - 0xFFFF);
        }
        (sum >> 16) + (sum & 0xFFFF)
    } else {
        sum
    }
}

/// RFC 1071 checksum over a byte slice: the folded 16-bit
/// one's-complement sum, not yet complemented.
pub fn rfc1071(data: &[u8]) -> (r: u16)
    ensures
        r as int == rfc1071_spec(data@),
{
    let n = data.len();
    let mut sum: u32 = 0;
    let mut i: usize = 0;
    proof {
        assert(data@.take(0) =~= Seq::<u8>::empty());
    }
    while n - i >= 2
        invariant
            n == data@.len(),
            i <= n,
            i % 2 == 0,
            sum <= 0xFFFF,
            sum as int == fold1c(sum16(data@.take(i as int))),
        decreases n - i,
    {
        let w: u32 = (data[i] as u32) * 256 + (data[i + 1] as u32);
        proof {
            lemma_sum16_take_pair(data@, i as int);
            lemma_sum16_nonneg(data@.take(i as int));
            lemma_fold1c_rejoin(sum16(data@.take(i as int)), w as int);
        }
        sum = fold_step(sum + w);
        i = i + 2;
    }
    if i < n {
        // odd trailing byte, padded with zero on the right
        let w: u32 = (data[i] as u32) * 256;
        proof {
            lemma_sum16_take_odd(data@, i as int);
            lemma_sum16_nonneg(data@.take(i as int));
            lemma_fold1c_rejoin(sum16(data@.take(i as int)), w as int);
        }
        sum = fold_step(sum + w);
        i = i + 1;
    }
    proof {
        assert(data@.take(i as int) =~= data@);
    }
    sum as u16
}

} // verus!
