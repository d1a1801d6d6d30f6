use vstd::prelude::*;

verus! {

/// The sum of the 16-bit big-endian words of `s` from index `i` on, a
/// trailing odd byte padded with a zero low byte.
pub open spec fn word_sum_from(s: Seq<u8>, i: int) -> int
    decreases s.len() - i,
{
    if i < 0 || i >= s.len() {
        0
    } else if i + 1 == s.len() {
        s[i] * 256
    } else {
        s[i] * 256 + s[i + 1] + word_sum_from(s, i + 2)
    }
}

pub open spec fn word_sum(s: Seq<u8>) -> int {
    word_sum_from(s, 0)
}

/// End-around carry folding of a non-negative sum into 16 bits.
pub open spec fn fold16(x: int) -> int
    recommends
        x >= 0,
    decreases x,
{
    if x < 65536 {
        x
    } else {
        fold16(x % 65536 + x / 65536)
    }
}

/// The Internet checksum of a byte sequence: the ones' complement of the
/// end-around-carry sum of its big-endian 16-bit words.
pub open spec fn checksum(s: Seq<u8>) -> int {
    65535 - fold16(word_sum(s))
}

proof fn lemma_word_sum_from_bound(s: Seq<u8>, i: int)
    requires
        0 <= i <= s.len(),
    ensures
        0 <= word_sum_from(s, i) <= (s.len() - i) * 65280,
    decreases s.len() - i,
{
    if i < s.len() && i + 1 < s.len() {
        lemma_word_sum_from_bound(s, i + 2);
    }
}

/// Computes the Internet checksum of `data`. The length bound — far above
/// any one IP frame — keeps the 64-bit word sum exact.
pub fn internet_checksum(data: &[u8]) -> (r: u16)
    requires
        data@.len() <= 100000,
    ensures
        r == checksum(data@),
{
    let n: usize = data.len();
    let mut sum: u64 = 0;
    let mut i: usize = 0;
    proof {
        lemma_word_sum_from_bound(data@, 0);
    }
    while i < n
        invariant
            n == data@.len() <= 100000,
            i <= n,
            i % 2 == 0 || i == n,
            sum == word_sum_from(data@, 0) - word_sum_from(data@, i as int),
            0 <= sum <= 100000 * 65280,
        decreases n - i,
    {
        proof {
            lemma_word_sum_from_bound(data@, 0);
            lemma_word_sum_from_bound(data@, i as int);
            if i + 1 < n {
                lemma_word_sum_from_bound(data@, i as int + 2);
            }
        }
        if i + 1 < n {
            sum = sum + (data[i] as u64) * 256 + (data[i + 1] as u64);
            i = i + 2;
        } else {
            sum = sum + (data[i] as u64) * 256;
            i = i + 1;
        }
    }
    proof {
        lemma_word_sum_from_bound(data@, 0);
    }
    while sum >= 65536
        invariant
            word_sum(data@) >= 0,
            fold16(sum as int) == fold16(word_sum(data@)),
        decreases sum,
    {
        sum = sum % 65536 + sum / 65536;
    }
    (65535 - sum) as u16
}

} // verus!
