//! The on-disk encoding of a process identifier.
//!
//! A pidfile's content is the identifier written as decimal ASCII digits,
//! with no sign, no leading zeros and no terminator. The write path
//! ([`encode_pid`]) and the read path ([`parse_pid`]) agree exactly:
//! the bytes written for a positive identifier parse back to it
//! ([`lemma_pid_roundtrip`]). Readers treat empty, non-numeric,
//! out-of-range or zero content as "no live lock".

use vstd::prelude::*;

verus! {

/// Every byte of `s` is a decimal ASCII digit.
pub open spec fn is_dec_digits(s: Seq<u8>) -> bool {
    forall|i: int| 0 <= i < s.len() ==> 48 <= #[trigger] s[i] <= 57
}

/// The number the digit string `s` denotes, most significant digit first.
pub open spec fn dec_value(s: Seq<u8>) -> int
    decreases s.len(),
{
    if s.len() == 0 {
        0
    } else {
        dec_value(s.take(s.len() - 1)) * 10 + (s.last() - 48)
    }
}

/// The decimal digits of `n`, most significant first, with no leading
/// zeros (`0` is written as the single digit `0`).
pub open spec fn spec_encode(n: nat) -> Seq<u8>
    decreases n,
{
    if n < 10 {
        seq![(n + 48) as u8]
    } else {
        spec_encode(n / 10).push((n % 10 + 48) as u8)
    }
}

/// What file content denotes a live lock: the content must be one or more
/// decimal digits whose value is positive and fits the identifier type.
pub open spec fn spec_parse(s: Seq<u8>) -> Option<usize> {
    if s.len() > 0 && is_dec_digits(s) && 0 < dec_value(s) <= usize::MAX {
        Some(dec_value(s) as usize)
    } else {
        None
    }
}

/// The encoding of any number is a non-empty digit string denoting that
/// number.
pub proof fn lemma_encode_value(n: nat)
    ensures
        spec_encode(n).len() >= 1,
        is_dec_digits(spec_encode(n)),
        dec_value(spec_encode(n)) == n,
    decreases n,
{
    if n < 10 {
        let s = spec_encode(n);
        assert(s.take(s.len() - 1) =~= Seq::<u8>::empty());
        assert(dec_value(Seq::<u8>::empty()) == 0);
    } else {
        lemma_encode_value(n / 10);
        let p = spec_encode(n / 10);
        let s = spec_encode(n);
        assert(s.take(s.len() - 1) =~= p);
        assert(n == (n / 10) * 10 + (n % 10)) by (nonlinear_arith);
        assert(dec_value(s) == dec_value(p) * 10 + (n % 10));
    }
}

/// Round trip: the bytes written for a positive identifier parse back to
/// that same identifier.
pub proof fn lemma_pid_roundtrip(n: usize)
    requires
        n > 0,
    ensures
        spec_parse(spec_encode(n as nat)) == Some(n),
{
    lemma_encode_value(n as nat);
}

/// Encodes `pid` as decimal ASCII digits, most significant first.
pub fn encode_pid(pid: usize) -> (v: Vec<u8>)
    ensures
        v@ == spec_encode(pid as nat),
    decreases pid,
{
    if pid < 10 {
        let mut v: Vec<u8> = Vec::new();
        v.push((pid as u8) + 48);
        proof {
            assert(v@ =~= spec_encode(pid as nat));
        }
        v
    } else {
        let mut v = encode_pid(pid / 10);
        v.push(((pid % 10) as u8) + 48);
        proof {
            assert(v@ =~= spec_encode(pid as nat));
        }
        v
    }
}

/// A digit string's value only grows as more digits are read.
proof fn lemma_dec_value_take(s: Seq<u8>, j: int)
    requires
        is_dec_digits(s),
        0 <= j <= s.len(),
    ensures
        0 <= dec_value(s.take(j)) <= dec_value(s),
    decreases s.len(),
{
    if s.len() == 0 {
        assert(s.take(j) =~= s);
    } else if j == s.len() {
        assert(s.take(j) =~= s);
        lemma_dec_value_take(s.take(s.len() - 1), s.len() - 1);
        assert(s.take(s.len() - 1).take(s.len() - 1) =~= s.take(s.len() - 1));
    } else {
        let p = s.take(s.len() - 1);
        assert(p.take(j) =~= s.take(j));
        lemma_dec_value_take(p, j);
        lemma_dec_value_take(p, p.len() as int);
        assert(dec_value(s) == dec_value(p) * 10 + (s.last() - 48));
    }
}

/// Parses decimal file content back into a process identifier.
///
/// Returns `Some(p)` exactly when the bytes are one or more decimal
/// digits denoting a positive value `p` that fits in `usize`; empty,
/// non-numeric, zero or out-of-range content yields `None`.
pub fn parse_pid(bytes: &Vec<u8>) -> (r: Option<usize>)
    ensures
        r == spec_parse(bytes@),
{
    let n = bytes.len();
    let mut acc: u128 = 0;
    let mut i: usize = 0;
    while i < n
        invariant
            0 <= i <= n,
            n == bytes@.len(),
            is_dec_digits(bytes@.take(i as int)),
            acc == dec_value(bytes@.take(i as int)),
            acc <= usize::MAX,
        decreases n - i,
    {
        let b = bytes[i];
        if b < 48 || b > 57 {
            proof {
                assert(!(48 <= bytes@[i as int] <= 57));
            }
            return None;
        }
        proof {
            assert(bytes@.take(i + 1).take(i as int) =~= bytes@.take(i as int));
            assert(bytes@.take(i + 1).last() == bytes@[i as int]);
        }
        acc = acc * 10 + ((b - 48) as u128);
        i = i + 1;
        if acc > (usize::MAX as u128) {
            proof {
                if bytes@.len() > 0 && is_dec_digits(bytes@) {
                    lemma_dec_value_take(bytes@, i as int);
                }
            }
            return None;
        }
    }
    proof {
        assert(bytes@.take(n as int) =~= bytes@);
    }
    if acc == 0 {
        None
    } else {
        Some(acc as usize)
    }
}

} // verus!
