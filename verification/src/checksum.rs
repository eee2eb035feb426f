//! The Internet checksum: the one's complement of the one's-complement sum of
//! the big-endian 16-bit words of a buffer.

use vstd::prelude::*;

verus! {

/// Number of 16-bit words in `data`; an odd last byte counts as a word.
pub open spec fn word_count(data: Seq<u8>) -> nat {
    ((data.len() + 1) / 2) as nat
}

/// Big-endian word `i` of `data`. An odd last byte is the high half of a word
/// whose low half is zero; past the end every word is zero.
pub open spec fn word(data: Seq<u8>, i: int) -> nat {
    if i < 0 {
        0
    } else if 2 * i + 1 < data.len() {
        (data[2 * i] as nat) * 0x100 + data[2 * i + 1] as nat
    } else if 2 * i < data.len() {
        (data[2 * i] as nat) * 0x100
    } else {
        0
    }
}

/// Sum of the first `n` words of `data`, word `skip` left out.
pub open spec fn word_sum(data: Seq<u8>, n: nat, skip: int) -> nat
    decreases n,
{
    if n == 0 {
        0
    } else if n - 1 == skip {
        word_sum(data, (n - 1) as nat, skip)
    } else {
        word_sum(data, (n - 1) as nat, skip) + word(data, n - 1)
    }
}

/// End-around carry: adds what lies above sixteen bits back in below, until
/// nothing lies above.
pub open spec fn fold(sum: nat) -> nat
    decreases sum,
{
    if sum < 0x1_0000 {
        sum
    } else {
        fold(sum / 0x1_0000 + sum % 0x1_0000)
    }
}

/// The checksum of `data` with word `skip` taken as zero; a `skip` that is the
/// index of no word leaves none out. The checksum of no data is 0.
pub open spec fn internet_checksum(data: Seq<u8>, skip: int) -> int {
    if data.len() == 0 {
        0
    } else {
        0xffff - fold(word_sum(data, word_count(data), skip))
    }
}

/// The one's-complement sum of the whole of `data`, no word left out.
pub open spec fn ones_complement_sum(data: Seq<u8>) -> nat {
    fold(word_sum(data, word_count(data), -1))
}

/// A length up to which the words of a buffer add up within 32 bits: 65536
/// words of at most `0xffff`.
pub const MAX_SUMMED_LEN: usize = 0x2_0000;

/// `pnet::packet::util::checksum`. It adds the big-endian words of `data` in a
/// `u32`, passing over the word at index `skipword`, folds the carries back in
/// and returns the complement; for empty data it returns 0. The bound on the
/// length keeps the `u32` from overflowing.
#[verifier::external_body]
pub(crate) fn checksum(data: &[u8], skipword: usize) -> (sum: u16)
    requires
        data@.len() <= MAX_SUMMED_LEN,
    ensures
        sum as int == internet_checksum(data@, skipword as int),
{
    pnet::packet::util::checksum(data, skipword)
}

/// Folding keeps a sum within sixteen bits, keeps it congruent modulo
/// `0xffff`, and gives zero only for zero.
pub proof fn lemma_fold(sum: nat)
    ensures
        fold(sum) < 0x1_0000,
        fold(sum) % 0xffff == sum % 0xffff,
        sum > 0 ==> fold(sum) > 0,
    decreases sum,
{
    if sum >= 0x1_0000 {
        let q = sum / 0x1_0000;
        let r = sum % 0x1_0000;
        let next = q + r;
        lemma_fold(next);
        assert(sum == next + q * 0xffff);
        vstd::arithmetic::div_mod::lemma_mod_multiples_vanish(q as int, next as int, 0xffff);
    }
}

/// A word that is left out of the sum can be added back in.
pub proof fn lemma_word_sum_skip(data: Seq<u8>, n: nat, skip: int)
    ensures
        word_sum(data, n, -1) == word_sum(data, n, skip) + if 0 <= skip < n {
            word(data, skip)
        } else {
            0
        },
    decreases n,
{
    if n > 0 {
        lemma_word_sum_skip(data, (n - 1) as nat, skip);
    }
}

/// A buffer that carries its own checksum sums to all ones, whose complement
/// is zero: the check a receiver makes.
pub proof fn lemma_checksum_verifies(data: Seq<u8>, skip: int)
    requires
        0 <= skip,
        2 * skip + 1 < data.len(),
        word(data, skip) == internet_checksum(data, skip),
    ensures
        ones_complement_sum(data) == 0xffff,
        internet_checksum(data, -1) == 0,
{
    let n = word_count(data);
    let partial = word_sum(data, n, skip);
    let total = word_sum(data, n, -1);
    lemma_word_sum_skip(data, n, skip);
    lemma_fold(partial);
    lemma_fold(total);
    assert(total == partial - fold(partial) + 0xffff);
    let k = partial / 0xffff - fold(partial) / 0xffff;
    assert(partial - fold(partial) == k * 0xffff) by {
        vstd::arithmetic::div_mod::lemma_fundamental_div_mod(partial as int, 0xffff);
        vstd::arithmetic::div_mod::lemma_fundamental_div_mod(fold(partial) as int, 0xffff);
    }
    assert(total % 0xffff == 0) by {
        vstd::arithmetic::div_mod::lemma_mod_multiples_vanish(k + 1, 0, 0xffff);
    }
}

} // verus!
