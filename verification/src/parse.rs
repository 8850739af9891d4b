//! Decimal parsing of configuration settings.
//!
//! The process is configured from environment text: a broker port and a
//! refresh-interval hint arrive as strings of decimal digits. These parsers
//! say exactly which strings they accept — non-empty, digits only, value in
//! range — and what number each accepted string denotes.

use vstd::prelude::*;
use vstd::string::StringSliceAdditionalSpecFns;

verus! {

/// True of a byte that is an ASCII decimal digit.
pub open spec fn is_dec_digit(b: u8) -> bool {
    48 <= b <= 57
}

/// True of the byte string a parser accepts: non-empty and digits only.
pub open spec fn dec_digits(s: Seq<u8>) -> bool {
    s.len() > 0 && forall|i: int| 0 <= i < s.len() ==> is_dec_digit(#[trigger] s[i])
}

/// The number a string of decimal digits denotes.
pub open spec fn dec_value(s: Seq<u8>) -> int
    decreases s.len(),
{
    if s.len() == 0 {
        0
    } else {
        dec_value(s.drop_last()) * 10 + (s.last() - 48)
    }
}

proof fn lemma_dec_value_nonneg(s: Seq<u8>)
    requires
        forall|i: int| 0 <= i < s.len() ==> is_dec_digit(#[trigger] s[i]),
    ensures
        dec_value(s) >= 0,
    decreases s.len(),
{
    if s.len() > 0 {
        lemma_dec_value_nonneg(s.drop_last());
    }
}

/// A digit string's value never falls below the value of any of its
/// prefixes: appending digits only grows the denoted number.
proof fn lemma_dec_value_prefix_le(s: Seq<u8>, i: int)
    requires
        forall|k: int| 0 <= k < s.len() ==> is_dec_digit(#[trigger] s[k]),
        0 <= i <= s.len(),
    ensures
        dec_value(s.take(i)) <= dec_value(s),
    decreases s.len() - i,
{
    if i < s.len() {
        lemma_dec_value_prefix_le(s, i + 1);
        assert(s.take(i + 1).drop_last() =~= s.take(i));
        assert(s.take(i + 1).last() == s[i]);
        lemma_dec_value_nonneg(s.take(i));
        assert(dec_value(s.take(i + 1)) == dec_value(s.take(i)) * 10 + (s[i] - 48));
    } else {
        assert(s.take(i) =~= s);
    }
}

/// Parse a string of decimal digits as an unsigned number. Returns the
/// denoted value exactly when the string is non-empty, holds digits only,
/// and the value fits; returns nothing otherwise.
pub fn parse_u64(s: &str) -> (r: Option<u64>)
    ensures
        r matches Some(n) ==> dec_digits(s.spec_bytes()) && n == dec_value(s.spec_bytes()),
        r is Some <==> dec_digits(s.spec_bytes()) && dec_value(s.spec_bytes()) <= u64::MAX,
{
    let bytes = s.as_bytes();
    let n = bytes.len();
    if n == 0 {
        return None;
    }
    let mut acc: u64 = 0;
    let mut i: usize = 0;
    while i < n
        invariant
            0 <= i <= n,
            n == bytes@.len(),
            bytes@ == s.spec_bytes(),
            forall|k: int| 0 <= k < i ==> is_dec_digit(#[trigger] bytes@[k]),
            acc == dec_value(bytes@.take(i as int)),
        decreases n - i,
    {
        let b = bytes[i];
        if b < 48 || b > 57 {
            return None;
        }
        let digit = (b - 48) as u64;
        let shifted = match acc.checked_mul(10) {
            Some(v) => v,
            None => {
                proof {
                    overflow_means_too_large(bytes@, i as int, acc, 10 * acc + digit);
                }
                return None;
            },
        };
        let next = match shifted.checked_add(digit) {
            Some(v) => v,
            None => {
                proof {
                    overflow_means_too_large(bytes@, i as int, acc, 10 * acc + digit);
                }
                return None;
            },
        };
        proof {
            assert(bytes@.take(i + 1).drop_last() =~= bytes@.take(i as int));
            assert(bytes@.take(i + 1).last() == bytes@[i as int]);
        }
        acc = next;
        i = i + 1;
    }
    proof {
        assert(bytes@.take(n as int) =~= bytes@);
    }
    Some(acc)
}

/// When the running value of the digits seen so far already exceeds the
/// machine maximum after one more digit, the whole string — if it is a
/// digit string at all — denotes a value over the maximum.
proof fn overflow_means_too_large(s: Seq<u8>, i: int, acc: u64, next: int)
    requires
        0 <= i < s.len(),
        forall|k: int| 0 <= k < i ==> is_dec_digit(#[trigger] s[k]),
        is_dec_digit(s[i]),
        acc == dec_value(s.take(i)),
        next == 10 * acc + (s[i] - 48),
        next > u64::MAX,
    ensures
        dec_digits(s) ==> dec_value(s) > u64::MAX,
{
    if dec_digits(s) {
        assert(s.take(i + 1).drop_last() =~= s.take(i));
        assert(s.take(i + 1).last() == s[i]);
        assert(dec_value(s.take(i + 1)) == next);
        lemma_dec_value_prefix_le(s, i + 1);
    }
}

/// Parse a broker port: a string of decimal digits denoting a port number
/// between 1 and 65535. Port 0 and anything out of range are rejected.
pub fn parse_port(s: &str) -> (r: Option<u16>)
    ensures
        r matches Some(p) ==> dec_digits(s.spec_bytes()) && p == dec_value(s.spec_bytes()),
        r is Some <==> dec_digits(s.spec_bytes()) && 1 <= dec_value(s.spec_bytes()) <= 65535,
{
    match parse_u64(s) {
        Some(n) => {
            if 1 <= n && n <= 65535 {
                Some(n as u16)
            } else {
                None
            }
        },
        None => {
            proof {
                if dec_digits(s.spec_bytes()) && 1 <= dec_value(s.spec_bytes()) <= 65535 {
                    assert(dec_value(s.spec_bytes()) <= u64::MAX);
                }
            }
            None
        },
    }
}

} // verus!
