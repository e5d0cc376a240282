//! Numbers written out in digits, as `u64::from_str_radix` reads them.
use vstd::prelude::*;
use vstd::string::StrSliceExecFns;

verus! {

/// The value of the digit `c` in base `radix`: `0` to `9`, then the letters (either case) from
/// ten on; `None` for a character that is not a digit of the base.
pub open spec fn radix_digit(c: char, radix: nat) -> Option<nat> {
    let d: int = if '0' <= c && c <= '9' {
        c as int - '0' as int
    } else if 'a' <= c && c <= 'z' {
        c as int - 'a' as int + 10
    } else if 'A' <= c && c <= 'Z' {
        c as int - 'A' as int + 10
    } else {
        radix as int
    };
    if d < radix {
        Some(d as nat)
    } else {
        None
    }
}

/// The number the digits `s` spell in base `radix` (0 for none); `None` if one is not a digit.
pub open spec fn digits_value(s: Seq<char>, radix: nat) -> Option<nat>
    decreases s.len(),
{
    if s.len() == 0 {
        Some(0)
    } else {
        match (digits_value(s.drop_last(), radix), radix_digit(s.last(), radix)) {
            (Some(v), Some(d)) => Some(v * radix + d),
            _ => None,
        }
    }
}

/// What `u64::from_str_radix(s, radix)` gives: an optional `+` and at least one digit of the
/// base, whose value fits in 64 bits.
pub open spec fn parse_radix(s: Seq<char>, radix: nat) -> Option<u64> {
    let digits = if s.len() > 0 && s[0] == '+' {
        s.drop_first()
    } else {
        s
    };
    if digits.len() == 0 {
        None
    } else {
        match digits_value(digits, radix) {
            Some(v) => if v <= u64::MAX {
                Some(v as u64)
            } else {
                None
            },
            None => None,
        }
    }
}

/// A prefix of a string of digits spells a number no larger than the whole.
proof fn lemma_digits_prefix(s: Seq<char>, radix: nat, k: int)
    requires
        0 <= k <= s.len(),
        radix >= 1,
        digits_value(s, radix) is Some,
    ensures
        digits_value(s.take(k), radix) is Some,
        digits_value(s.take(k), radix).unwrap() <= digits_value(s, radix).unwrap(),
    decreases s.len(),
{
    if k == s.len() {
        assert(s.take(k) =~= s);
    } else {
        lemma_digits_prefix(s.drop_last(), radix, k);
        assert(s.drop_last().take(k) =~= s.take(k));
        let v = digits_value(s.drop_last(), radix).unwrap();
        assert(v * radix >= v) by (nonlinear_arith)
            requires
                radix >= 1,
        ;
    }
}

/// The value of the digit `c` in base `radix`.
fn digit_value(c: char, radix: u32) -> (r: Option<u64>)
    requires
        2 <= radix <= 36,
    ensures
        match radix_digit(c, radix as nat) {
            Some(d) => r == Some(d as u64) && d < radix,
            None => r is None,
        },
{
    let d: u32 = if '0' <= c && c <= '9' {
        c as u32 - '0' as u32
    } else if 'a' <= c && c <= 'z' {
        c as u32 - 'a' as u32 + 10
    } else if 'A' <= c && c <= 'Z' {
        c as u32 - 'A' as u32 + 10
    } else {
        radix
    };
    if d < radix {
        Some(d as u64)
    } else {
        None
    }
}

/// Reads `s` as a number in base `radix`, as `u64::from_str_radix` does: an optional `+`,
/// then at least one digit, and a value that fits in 64 bits.
pub fn parse_u64_radix(s: &str, radix: u32) -> (r: Option<u64>)
    requires
        2 <= radix <= 36,
    ensures
        r == parse_radix(s@, radix as nat),
{
    let len = s.unicode_len();
    let mut start: usize = 0;
    if len > 0 && s.get_char(0) == '+' {
        start = 1;
    }
    let ghost digits = s@.subrange(start as int, len as int);
    assert(digits =~= (if s@.len() > 0 && s@[0] == '+' {
        s@.drop_first()
    } else {
        s@
    }));
    if start == len {
        return None;
    }
    let mut acc: u64 = 0;
    let mut i: usize = start;
    assert(digits.take(0) =~= Seq::<char>::empty());
    while i < len
        invariant
            2 <= radix <= 36,
            len == s@.len(),
            start <= i <= len,
            digits == s@.subrange(start as int, len as int),
            digits == (if s@.len() > 0 && s@[0] == '+' {
                s@.drop_first()
            } else {
                s@
            }),
            digits.len() > 0,
            digits_value(digits.take(i - start), radix as nat) == Some(acc as nat),
        decreases len - i,
    {
        let c = s.get_char(i);
        let ghost prefix = digits.take(i - start + 1);
        assert(prefix.drop_last() =~= digits.take(i - start));
        assert(prefix.last() == c);
        match digit_value(c, radix) {
            None => {
                proof {
                    if digits_value(digits, radix as nat) is Some {
                        lemma_digits_prefix(digits, radix as nat, i - start + 1);
                    }
                }
                return None;
            },
            Some(d) => {
                assert(acc as u128 * radix as u128 <= 0xffff_ffff_ffff_ffff * 36) by (nonlinear_arith)
                    requires
                        radix <= 36,
                ;
                let next: u128 = acc as u128 * radix as u128 + d as u128;
                if next > u64::MAX as u128 {
                    proof {
                        if digits_value(digits, radix as nat) is Some {
                            lemma_digits_prefix(digits, radix as nat, i - start + 1);
                        }
                    }
                    return None;
                }
                acc = next as u64;
            },
        }
        i = i + 1;
    }
    assert(digits.take(len - start) =~= digits);
    Some(acc)
}

} // verus!
