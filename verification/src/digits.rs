//! Base-10 digit sequences and the unsigned numbers they denote.

use vstd::prelude::*;
use vstd::string::*;

verus! {

/// `c` is one of the ten ASCII decimal digits.
pub open spec fn is_digit(c: char) -> bool {
    '0' <= c && c <= '9'
}

/// The number a decimal digit stands for; 0 for any other character.
pub open spec fn digit_value(c: char) -> nat {
    if is_digit(c) {
        (c as int - '0' as int) as nat
    } else {
        0
    }
}

/// The decimal digit that stands for `d`, for `d` below ten.
pub open spec fn digit_char(d: nat) -> char
    recommends
        d < 10,
{
    (d + '0' as nat) as char
}

/// Every character of `s` is a decimal digit.
pub open spec fn all_digits(s: Seq<char>) -> bool {
    forall|i: int| 0 <= i < s.len() ==> is_digit(#[trigger] s[i])
}

/// The number that `s` denotes when read as base 10, most significant digit
/// first. Leading zeros do not change it, and the empty text denotes 0.
pub open spec fn decimal_value(s: Seq<char>) -> nat
    decreases s.len(),
{
    if s.len() == 0 {
        0
    } else {
        decimal_value(s.drop_last()) * 10 + digit_value(s.last())
    }
}

/// The shortest decimal text that denotes `n`: no leading zero, except for
/// zero itself, which is written "0".
pub open spec fn decimal_text(n: nat) -> Seq<char>
    decreases n,
{
    if n < 10 {
        seq![digit_char(n)]
    } else {
        decimal_text(n / 10).push(digit_char(n % 10))
    }
}

/// What reading `s` as an unsigned 64-bit integer gives: the number it
/// denotes where `s` is a non-empty run of digits whose number fits, and
/// nothing otherwise.
pub open spec fn parse_u64_spec(s: Seq<char>) -> Option<u64> {
    if s.len() > 0 && all_digits(s) && decimal_value(s) <= u64::MAX {
        Some(decimal_value(s) as u64)
    } else {
        None
    }
}

/// A longer text denotes at least as much as each of its prefixes.
pub proof fn lemma_prefix_value_le(s: Seq<char>, k: int)
    requires
        0 <= k <= s.len(),
    ensures
        decimal_value(s.take(k)) <= decimal_value(s),
    decreases s.len(),
{
    if k == s.len() {
        assert(s.take(k) =~= s);
    } else {
        assert(s.drop_last().take(k) =~= s.take(k));
        lemma_prefix_value_le(s.drop_last(), k);
    }
}

/// The canonical text of a number is a non-empty run of digits that denotes
/// that number.
pub proof fn lemma_decimal_text_value(n: nat)
    ensures
        decimal_text(n).len() > 0,
        all_digits(decimal_text(n)),
        decimal_value(decimal_text(n)) == n,
    decreases n,
{
    let t = decimal_text(n);
    if n < 10 {
        assert(decimal_value(t.drop_last()) == 0);
    } else {
        let head = decimal_text(n / 10);
        lemma_decimal_text_value(n / 10);
        assert(t.drop_last() =~= head);
        assert forall|i: int| 0 <= i < t.len() implies is_digit(#[trigger] t[i]) by {
            if i < head.len() {
                assert(t[i] == head[i]);
            }
        }
    }
}

/// Reads `s` as a base-10 unsigned 64-bit integer. Only digits are taken:
/// a sign, a space, any other character, the empty text, or a number above
/// the 64-bit range gives `None`.
pub fn parse_u64(s: &str) -> (r: Option<u64>)
    ensures
        r == parse_u64_spec(s@),
{
    if !s.is_ascii() {
        proof {
            let j = choose|j: int| 0 <= j < s@.len() && !('\0' <= #[trigger] s@[j] <= '\u{7f}');
            assert(!is_digit(s@[j]));
        }
        return None;
    }
    let bytes = s.as_bytes();
    let n: usize = bytes.len();
    proof {
        is_ascii_spec_bytes(s);
    }
    if n == 0 {
        return None;
    }
    let mut acc: u64 = 0;
    let mut i: usize = 0;
    while i < n
        invariant
            i <= n,
            n == s@.len(),
            n == bytes@.len(),
            is_ascii(s),
            forall|j: int| 0 <= j < n ==> bytes@[j] == (#[trigger] s@[j]) as u8,
            all_digits(s@.take(i as int)),
            acc == decimal_value(s@.take(i as int)),
        decreases n - i,
    {
        let b: u8 = bytes[i];
        let ghost c: char = s@[i as int];
        let ghost next = s@.take(i + 1);
        proof {
            assert(b == c as u8 && '\0' <= c <= '\u{7f}');
            assert(next.drop_last() =~= s@.take(i as int));
        }
        if b < 48 || b > 57 {
            assert(!is_digit(c));
            return None;
        }
        let d: u64 = (b - 48) as u64;
        proof {
            assert(decimal_value(next) == acc * 10 + d);
            lemma_prefix_value_le(s@, i + 1);
        }
        let shifted: u64 = match acc.checked_mul(10) {
            Some(m) => m,
            None => {
                return None;
            },
        };
        acc = match shifted.checked_add(d) {
            Some(v) => v,
            None => {
                return None;
            },
        };
        proof {
            assert forall|j: int| 0 <= j < next.len() implies is_digit(#[trigger] next[j]) by {
                if j < i {
                    assert(next[j] == s@.take(i as int)[j]);
                }
            }
        }
        i += 1;
    }
    proof {
        assert(s@.take(n as int) =~= s@);
    }
    Some(acc)
}

} // verus!
