//! Unsigned numerals and bit counting.

use vstd::prelude::*;
use vstd::arithmetic::power2::*;

verus! {

/// The value of `c` as a digit of the given radix, where it is one.
pub open spec fn digit_value(c: char, radix: int) -> Option<int> {
    let n = c as u32 as int;
    let v = if 0x30 <= n <= 0x39 {
        n - 0x30
    } else if 0x41 <= n <= 0x5A {
        n - 0x41 + 10
    } else if 0x61 <= n <= 0x7A {
        n - 0x61 + 10
    } else {
        radix
    };
    if v < radix {
        Some(v)
    } else {
        None
    }
}

/// Whether every character of `s` is a digit of the given radix.
pub open spec fn all_digits(s: Seq<char>, radix: int) -> bool {
    forall|i: int| 0 <= i < s.len() ==> (#[trigger] digit_value(s[i], radix)) is Some
}

/// The number that the first `n` characters of `s` denote in the given
/// radix, most significant digit first.
pub open spec fn digits_value(s: Seq<char>, n: int, radix: int) -> int
    decreases n,
{
    if n <= 0 || n > s.len() {
        0
    } else {
        match digit_value(s[n - 1], radix) {
            Some(d) => digits_value(s, n - 1, radix) * radix + d,
            None => 0,
        }
    }
}

/// The digits of a numeral: what follows its optional plus sign.
pub open spec fn numeral_digits(s: Seq<char>) -> Seq<char> {
    if s.len() > 0 && s[0] == '+' {
        s.subrange(1, s.len() as int)
    } else {
        s
    }
}

/// The number that `s` denotes: an optional plus sign and then at least one
/// digit of the given radix, with a value of at most `max`. Anything else
/// denotes no number.
pub open spec fn parse_unsigned(s: Seq<char>, radix: int, max: int) -> Option<int> {
    let d = numeral_digits(s);
    if d.len() > 0 && all_digits(d, radix) && digits_value(d, d.len() as int, radix) <= max {
        Some(digits_value(d, d.len() as int, radix))
    } else {
        None
    }
}

/// A numeral's value is not negative.
pub proof fn lemma_digits_value_nonnegative(s: Seq<char>, n: int, radix: int)
    requires
        radix >= 1,
    ensures
        0 <= digits_value(s, n, radix),
    decreases n,
{
    if 0 < n <= s.len() {
        lemma_digits_value_nonnegative(s, n - 1, radix);
        let v = digits_value(s, n - 1, radix);
        match digit_value(s[n - 1], radix) {
            Some(d) => {
                assert(v * radix + d >= 0) by (nonlinear_arith)
                    requires
                        v >= 0,
                        radix >= 1,
                        d >= 0,
                ;
            },
            None => {},
        }
    }
}

/// A numeral's value does not shrink as digits are added.
pub proof fn lemma_digits_value_grows(s: Seq<char>, i: int, n: int, radix: int)
    requires
        0 <= i <= n <= s.len(),
        radix >= 1,
        all_digits(s, radix),
    ensures
        digits_value(s, i, radix) <= digits_value(s, n, radix),
    decreases n - i,
{
    if i < n {
        lemma_digits_value_grows(s, i, n - 1, radix);
        lemma_digits_value_nonnegative(s, n - 1, radix);
        let v = digits_value(s, n - 1, radix);
        let d = digit_value(s[n - 1], radix).unwrap();
        assert(v * radix + d >= v) by (nonlinear_arith)
            requires
                v >= 0,
                radix >= 1,
                d >= 0,
        ;
    }
}

/// The value of a character as a digit of the given radix.
pub fn digit_of(c: char, radix: u32) -> (d: Option<u32>)
    requires
        2 <= radix <= 36,
    ensures
        d matches Some(v) ==> v < radix,
        match d {
            Some(v) => digit_value(c, radix as int) == Some(v as int),
            None => digit_value(c, radix as int) is None,
        },
{
    let n: u32 = c as u32;
    let v: u32 = if 0x30 <= n && n <= 0x39 {
        n - 0x30
    } else if 0x41 <= n && n <= 0x5A {
        n - 0x41 + 10
    } else if 0x61 <= n && n <= 0x7A {
        n - 0x61 + 10
    } else {
        radix
    };
    if v < radix {
        Some(v)
    } else {
        None
    }
}

/// Reads `s[from..to]` as an unsigned numeral of the given radix with a
/// value of at most `max`.
pub fn parse_range(s: &Vec<char>, from: usize, to: usize, radix: u32, max: u64) -> (r: Option<u64>)
    requires
        from <= to <= s.len(),
        2 <= radix <= 36,
    ensures
        match r {
            Some(v) => parse_unsigned(s@.subrange(from as int, to as int), radix as int, max as int)
                == Some(v as int),
            None => parse_unsigned(s@.subrange(from as int, to as int), radix as int, max as int)
                is None,
        },
{
    let ghost part = s@.subrange(from as int, to as int);
    let start: usize = if from < to && s[from] == '+' {
        from + 1
    } else {
        from
    };
    let ghost digits = numeral_digits(part);
    proof {
        assert(from < to ==> part[0] == s@[from as int]);
        assert(digits =~= s@.subrange(start as int, to as int));
    }
    if start == to {
        return None;
    }
    let mut acc: u64 = 0;
    let mut i: usize = start;
    while i < to
        invariant
            from <= start <= i <= to <= s.len(),
            start < to,
            2 <= radix <= 36,
            part == s@.subrange(from as int, to as int),
            digits == numeral_digits(part),
            digits == s@.subrange(start as int, to as int),
            forall|j: int| 0 <= j < i - start ==> (#[trigger] digit_value(digits[j], radix as int)) is Some,
            acc == digits_value(digits, i - start, radix as int),
            acc <= max,
        decreases to - i,
    {
        assert(digits[i - start] == s@[i as int]);
        match digit_of(s[i], radix) {
            None => {
                assert(digit_value(digits[i - start], radix as int) is None);
                return None;
            },
            Some(d) => {
                assert(acc as int * radix as int + d as int <= 0x1_0000_0000_0000_0000 * 36)
                    by (nonlinear_arith)
                    requires
                        acc <= 0xFFFF_FFFF_FFFF_FFFF,
                        0 < radix <= 36,
                        d < 36,
                ;
                let next: u128 = (acc as u128) * (radix as u128) + (d as u128);
                assert(digits_value(digits, i - start + 1, radix as int) == next);
                if next > max as u128 {
                    proof {
                        if all_digits(digits, radix as int) {
                            lemma_digits_value_grows(
                                digits,
                                i - start + 1,
                                digits.len() as int,
                                radix as int,
                            );
                        }
                    }
                    return None;
                }
                acc = next as u64;
                i += 1;
            },
        }
    }
    Some(acc)
}

/// The number of one bits in the binary numeral of `mask`.
pub open spec fn popcount(mask: nat) -> nat
    decreases mask,
{
    if mask == 0 {
        0
    } else {
        (mask % 2) + popcount(mask / 2)
    }
}

/// A number below two to the `bits` has at most `bits` one bits.
pub proof fn lemma_popcount_bound(mask: nat, bits: nat)
    requires
        mask < pow2(bits),
    ensures
        popcount(mask) <= bits,
    decreases bits,
{
    if mask != 0 {
        if bits == 0 {
            lemma2_to64();
        } else {
            lemma_pow2_unfold(bits);
            lemma_popcount_bound(mask / 2, (bits - 1) as nat);
        }
    }
}

/// Clearing the lowest one bit of a number takes one from its count of one
/// bits.
pub proof fn lemma_clear_lowest_bit(mask: u64)
    requires
        mask != 0,
    ensures
        popcount((mask & ((mask - 1) as u64)) as nat) + 1 == popcount(mask as nat),
    decreases mask,
{
    let less: u64 = (mask - 1) as u64;
    let rest: u64 = mask & less;
    if mask % 2 == 1 {
        assert(rest == less && less / 2 == mask / 2 && less % 2 == 0) by (bit_vector)
            requires
                mask % 2 == 1,
                less == mask - 1,
                rest == mask & less,
        ;
    } else {
        let half: u64 = mask / 2;
        let half_less: u64 = (half - 1) as u64;
        assert(half != 0 && rest % 2 == 0 && rest / 2 == half & half_less) by (bit_vector)
            requires
                mask != 0,
                mask % 2 == 0,
                less == mask - 1,
                rest == mask & less,
                half == mask / 2,
                half_less == half - 1,
        ;
        lemma_clear_lowest_bit(half);
    }
}

/// Only zero has no one bit.
pub proof fn lemma_popcount_zero(mask: nat)
    ensures
        popcount(mask) == 0 <==> mask == 0,
    decreases mask,
{
    if mask != 0 {
        lemma_popcount_zero(mask / 2);
    }
}

/// A number has exactly one bit set exactly when it is not zero and
/// clearing its lowest one bit leaves zero.
pub proof fn lemma_single_bit(mask: u64)
    ensures
        popcount(mask as nat) == 1 <==> mask != 0 && mask & ((mask - 1) as u64) == 0,
{
    if mask != 0 {
        lemma_clear_lowest_bit(mask);
        lemma_popcount_zero((mask & ((mask - 1) as u64)) as nat);
    }
}

/// Counts the one bits of `mask` by clearing the lowest one until none is
/// left.
pub fn count_ones(mask: u64) -> (n: u32)
    ensures
        n == popcount(mask as nat),
        n <= 64,
{
    proof {
        lemma2_to64();
        lemma_popcount_bound(mask as nat, 64);
    }
    let mut rest: u64 = mask;
    let mut n: u32 = 0;
    while rest != 0
        invariant
            n + popcount(rest as nat) == popcount(mask as nat),
            popcount(mask as nat) <= 64,
        decreases popcount(rest as nat),
    {
        proof {
            lemma_clear_lowest_bit(rest);
        }
        n += 1;
        rest = rest & (rest - 1);
    }
    n
}

} // verus!
