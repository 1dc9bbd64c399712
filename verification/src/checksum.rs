//! The Internet checksum of RFC 1071: a 16-bit one's-complement sum over
//! the big-endian 16-bit words of a byte buffer, complemented.
//!
//! The checksum of a packet is computed with the packet's own checksum
//! field counted as zero; writing the result into that field then makes
//! the sum over the whole packet the all-ones word `0xFFFF` — negative
//! zero in one's-complement arithmetic — which is what receivers check.

use vstd::prelude::*;

verus! {

/// One's-complement addition of two 16-bit quantities: plain addition,
/// with a carry out of the high bit folded back into the low end.
pub open spec fn oc_add(a: int, b: int) -> int {
    if a + b > 0xFFFF {
        a + b - 0xFFFF
    } else {
        a + b
    }
}

/// How many 16-bit words a buffer covers; an odd trailing byte forms a
/// word of its own.
pub open spec fn num_words(data: Seq<u8>) -> int {
    (data.len() + 1) as int / 2
}

/// The big-endian 16-bit word at word index `i`; an odd trailing byte is
/// padded with a zero low byte.
pub open spec fn word_at(data: Seq<u8>, i: int) -> int {
    if 2 * i + 1 < data.len() {
        data[2 * i] * 0x100 + data[2 * i + 1]
    } else {
        data[2 * i] * 0x100
    }
}

/// The word at index `i` as the checksum computation sees it: the word at
/// the skipped index counts as zero.  A `skip` outside the word range
/// skips nothing.
pub open spec fn word_for_sum(data: Seq<u8>, i: int, skip: int) -> int {
    if i == skip {
        0
    } else {
        word_at(data, i)
    }
}

/// The one's-complement sum of the words from index `i` on, with the word
/// at index `skip` counted as zero.
pub open spec fn oc_sum_from(data: Seq<u8>, i: int, skip: int) -> int
    decreases num_words(data) - i,
{
    if i < 0 || i >= num_words(data) {
        0
    } else {
        oc_add(word_for_sum(data, i, skip), oc_sum_from(data, i + 1, skip))
    }
}

/// The one's-complement sum of the whole buffer, with the word at index
/// `skip` counted as zero; pass a negative `skip` to sum every word.
pub open spec fn oc_sum(data: Seq<u8>, skip: int) -> int {
    oc_sum_from(data, 0, skip)
}

/// The RFC 1071 checksum: the complement of the one's-complement sum,
/// with the word at index `skip` counted as zero.
pub open spec fn checksum_spec(data: Seq<u8>, skip: int) -> int {
    0xFFFF - oc_sum(data, skip)
}

/// Every partial one's-complement sum lies between 0 and 0xFFFF.
pub proof fn lemma_oc_sum_from_range(data: Seq<u8>, i: int, skip: int)
    ensures
        0 <= oc_sum_from(data, i, skip) <= 0xFFFF,
    decreases num_words(data) - i,
{
    if i < 0 || i >= num_words(data) {
    } else {
        lemma_oc_sum_from_range(data, i + 1, skip);
    }
}

/// Two equally long buffers whose contributing words agree from index `i`
/// on have the same partial sum.
proof fn lemma_oc_sum_from_congruent(d1: Seq<u8>, d2: Seq<u8>, i: int, s1: int, s2: int)
    requires
        d1.len() == d2.len(),
        forall|j: int|
            i <= j < num_words(d1) ==> word_for_sum(d1, j, s1) == word_for_sum(d2, j, s2),
    ensures
        oc_sum_from(d1, i, s1) == oc_sum_from(d2, i, s2),
    decreases num_words(d1) - i,
{
    if i < 0 || i >= num_words(d1) {
    } else {
        lemma_oc_sum_from_congruent(d1, d2, i + 1, s1, s2);
    }
}

/// One's-complement addition commutes through a nested sum.
proof fn lemma_oc_add_left_commute(a: int, b: int, c: int)
    requires
        0 <= a <= 0xFFFF,
        0 <= b <= 0xFFFF,
        0 <= c <= 0xFFFF,
    ensures
        oc_add(a, oc_add(b, c)) == oc_add(b, oc_add(a, c)),
{
}

/// Replacing the zero word the sum skipped with a value `cs` adds `cs` to
/// the sum, one's-complement-wise: `d2` equals `d1` except that the word
/// at index `skip` — skipped while summing `d1` — holds `cs` in `d2`, and
/// nothing is skipped while summing `d2`.
proof fn lemma_sum_with_word_filled(d1: Seq<u8>, d2: Seq<u8>, skip: int, cs: int, i: int)
    requires
        d1.len() == d2.len(),
        0 <= i <= skip,
        0 <= 2 * skip + 1 < d1.len(),
        forall|j: int|
            0 <= j < d1.len() && j != 2 * skip && j != 2 * skip + 1 ==> d2[j] == d1[j],
        0 <= cs <= 0xFFFF,
        d2[2 * skip] == cs / 0x100,
        d2[2 * skip + 1] == cs % 0x100,
    ensures
        oc_sum_from(d2, i, -1) == oc_add(cs, oc_sum_from(d1, i, skip)),
    decreases skip - i,
{
    assert(skip < num_words(d1));
    if i == skip {
        assert(word_at(d2, skip) == (cs / 0x100) * 0x100 + cs % 0x100);
        assert((cs / 0x100) * 0x100 + cs % 0x100 == cs) by (nonlinear_arith)
            requires 0 <= cs;
        assert(forall|j: int|
            skip + 1 <= j < num_words(d1)
                ==> word_for_sum(d1, j, skip) == word_for_sum(d2, j, -1));
        lemma_oc_sum_from_congruent(d1, d2, skip + 1, skip, -1);
        lemma_oc_sum_from_range(d1, skip + 1, skip);
        assert(oc_sum_from(d1, skip, skip)
            == oc_add(0, oc_sum_from(d1, skip + 1, skip)));
    } else {
        lemma_sum_with_word_filled(d1, d2, skip, cs, i + 1);
        assert(word_at(d2, i) == word_at(d1, i));
        lemma_oc_sum_from_range(d1, i + 1, skip);
        lemma_oc_sum_from_range(d1, i, skip);
        assert(0 <= word_at(d1, i) <= 0xFFFF) by {
            assert(d1[2 * i] < 0x100);
        }
        lemma_oc_add_left_commute(word_at(d1, i), cs, oc_sum_from(d1, i + 1, skip));
    }
}

/// Writing the checksum computed over a buffer (its checksum word
/// skipped) into that very word makes the one's-complement sum of the
/// whole buffer, nothing skipped, the all-ones word `0xFFFF` — negative
/// zero — so the complemented sum of the finished buffer is zero.
pub proof fn lemma_checksum_zeroes_sum(d1: Seq<u8>, d2: Seq<u8>, skip: int)
    requires
        d1.len() == d2.len(),
        0 <= skip,
        2 * skip + 1 < d1.len(),
        forall|j: int|
            0 <= j < d1.len() && j != 2 * skip && j != 2 * skip + 1 ==> d2[j] == d1[j],
        d2[2 * skip] == checksum_spec(d1, skip) / 0x100,
        d2[2 * skip + 1] == checksum_spec(d1, skip) % 0x100,
    ensures
        oc_sum(d2, -1) == 0xFFFF,
        checksum_spec(d2, -1) == 0,
{
    lemma_oc_sum_from_range(d1, 0, skip);
    lemma_sum_with_word_filled(d1, d2, skip, checksum_spec(d1, skip), 0);
}

/// Compute the RFC 1071 checksum of `data`, counting the 16-bit word at
/// index `skipword` as zero, so the checksum field itself — whatever it
/// holds — never enters its own computation.
pub fn internet_checksum(data: &Vec<u8>, skipword: usize) -> (r: u16)
    ensures
        r == checksum_spec(data@, skipword as int),
{
    let n: usize = data.len() / 2 + data.len() % 2;
    proof {
        assert(n == num_words(data@));
    }
    let mut acc: u16 = 0;
    let mut i: usize = n;
    while i > 0
        invariant
            i <= n,
            n == num_words(data@),
            2 * n <= data@.len() + 1,
            data@.len() <= usize::MAX,
            acc == oc_sum_from(data@, i as int, skipword as int),
        decreases i,
    {
        i = i - 1;
        let w: u16;
        if i == skipword {
            w = 0;
        } else {
            proof {
                assert(2 * i < data@.len());
            }
            let hi: u16 = data[2 * i] as u16;
            let lo: u16 = if 2 * i + 1 < data.len() {
                data[2 * i + 1] as u16
            } else {
                0
            };
            w = hi * 0x100 + lo;
            proof {
                assert(w == word_at(data@, i as int));
            }
        }
        proof {
            lemma_oc_sum_from_range(data@, i + 1, skipword as int);
        }
        let s: u32 = acc as u32 + w as u32;
        acc = if s > 0xFFFF {
            (s - 0xFFFF) as u16
        } else {
            s as u16
        };
    }
    0xFFFF - acc
}

} // verus!
