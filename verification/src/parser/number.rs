//! Unsigned decimal numerals: an optional `+`, then one or more of the digits
//! `0` to `9`, with a value that fits in 64 bits.

use vstd::prelude::*;
use vstd::std_specs::iter::IteratorSpec;
use vstd::string::StrSliceExecFns;

verus! {

/// One of the ten characters `0` to `9`.
pub open spec fn is_digit(c: char) -> bool {
    '0' <= c <= '9'
}

/// The number that a digit stands for.
pub open spec fn digit_value(c: char) -> nat
    recommends
        is_digit(c),
{
    (c as u32 - '0' as u32) as nat
}

/// Every character of `s` is a digit.
pub open spec fn all_digits(s: Seq<char>) -> bool {
    forall|i: int| 0 <= i < s.len() ==> is_digit(#[trigger] s[i])
}

/// The number that a run of digits writes in base ten, most significant digit
/// first. The empty run writes zero.
pub open spec fn decimal_value(s: Seq<char>) -> nat
    recommends
        all_digits(s),
    decreases s.len(),
{
    if s.len() == 0 {
        0
    } else {
        decimal_value(s.drop_last()) * 10 + digit_value(s.last())
    }
}

/// What a run of digits is worth as an amount: its value where the run is not
/// empty, holds digits only and fits in 64 bits, and nothing otherwise.
pub open spec fn digits_amount(s: Seq<char>) -> Option<u64> {
    if s.len() > 0 && all_digits(s) && decimal_value(s) <= u64::MAX {
        Some(decimal_value(s) as u64)
    } else {
        None
    }
}

/// The part of a numeral that holds its digits: all of it but a leading `+`.
pub open spec fn unsigned_digits(s: Seq<char>) -> Seq<char> {
    if s.len() > 0 && s[0] == '+' {
        s.skip(1)
    } else {
        s
    }
}

/// The amount that a numeral writes, if it writes one. A single leading `+`
/// is allowed and ignored; a `-`, a blank or any other character is not.
pub open spec fn unsigned_value(s: Seq<char>) -> Option<u64> {
    digits_amount(unsigned_digits(s))
}

/// The character that writes a number below ten.
pub open spec fn digit_char(d: nat) -> char
    recommends
        d < 10,
{
    ('0' as u32 + d) as char
}

/// The shortest numeral of `n`: its digits in base ten, most significant
/// first, with no sign and no leading zero (but for zero itself, `0`).
pub open spec fn numeral_of(n: nat) -> Seq<char>
    decreases n,
{
    if n < 10 {
        seq![digit_char(n)]
    } else {
        numeral_of(n / 10).push(digit_char(n % 10))
    }
}

/// A run of digits is worth at least as much as each run it starts with.
pub proof fn lemma_decimal_value_prefix(s: Seq<char>, k: int)
    requires
        0 <= k <= s.len(),
    ensures
        decimal_value(s.take(k)) <= decimal_value(s),
    decreases s.len(),
{
    if k == s.len() {
        assert(s.take(k) =~= s);
    } else {
        assert(s.drop_last().take(k) =~= s.take(k));
        lemma_decimal_value_prefix(s.drop_last(), k);
    }
}

/// Reading one more digit multiplies what was read by ten and adds the digit.
pub proof fn lemma_decimal_value_step(s: Seq<char>, k: int)
    requires
        0 <= k < s.len(),
    ensures
        decimal_value(s.take(k + 1)) == decimal_value(s.take(k)) * 10 + digit_value(s[k]),
{
    assert(s.take(k + 1).drop_last() =~= s.take(k));
}

/// The numeral of `n` is a run of digits, not empty, that writes `n`.
pub proof fn lemma_numeral_of_writes(n: nat)
    ensures
        numeral_of(n).len() > 0,
        all_digits(numeral_of(n)),
        decimal_value(numeral_of(n)) == n,
    decreases n,
{
    let s = numeral_of(n);
    if n < 10 {
        assert(s.drop_last() =~= Seq::<char>::empty());
        assert(s.last() == digit_char(n));
        assert(decimal_value(s.drop_last()) == 0);
    } else {
        lemma_numeral_of_writes(n / 10);
        assert(s.drop_last() =~= numeral_of(n / 10));
        assert(s.last() == digit_char(n % 10));
        assert(decimal_value(s) == decimal_value(s.drop_last()) * 10 + digit_value(s.last()));
    }
}

/// Reading the numeral of `n` gives `n` back where `n` fits in 64 bits, and
/// nothing where it does not.
pub proof fn lemma_unsigned_value_of_numeral(n: nat)
    ensures
        unsigned_value(numeral_of(n)) == if n <= u64::MAX {
            Some(n as u64)
        } else {
            None
        },
{
    lemma_numeral_of_writes(n);
    assert(is_digit(numeral_of(n)[0]));
}

/// The number behind a digit, or nothing for any other character.
pub fn digit_of(c: char) -> (r: Option<u8>)
    ensures
        r is Some <==> is_digit(c),
        r matches Some(d) ==> d == digit_value(c) && d <= 9,
{
    if '0' <= c && c <= '9' {
        Some((c as u32 - '0' as u32) as u8)
    } else {
        None
    }
}

/// Reads a run of digits as an amount.
pub fn parse_digits(text: &str) -> (r: Option<u64>)
    ensures
        r == digits_amount(text@),
{
    let mut chars = text.chars();
    let mut value: u64 = 0;
    let mut any = false;
    let ghost mut k: int = 0;
    loop
        invariant
            0 <= k <= text@.len(),
            chars.remaining() == text@.skip(k),
            all_digits(text@.take(k)),
            value == decimal_value(text@.take(k)),
            any == (k > 0),
        decreases text@.len() - k,
    {
        match chars.next() {
            None => {
                assert(text@.take(k) =~= text@);
                return if any {
                    Some(value)
                } else {
                    None
                };
            },
            Some(c) => {
                proof {
                    lemma_decimal_value_step(text@, k);
                    lemma_decimal_value_prefix(text@, k + 1);
                }
                let Some(d) = digit_of(c) else {
                    return None;
                };
                let Some(tens) = value.checked_mul(10) else {
                    return None;
                };
                let Some(next) = tens.checked_add(d as u64) else {
                    return None;
                };
                value = next;
                any = true;
                proof {
                    k = k + 1;
                }
            },
        }
    }
}

/// Reads a numeral as an amount.
pub fn parse_unsigned(text: &str) -> (r: Option<u64>)
    ensures
        r == unsigned_value(text@),
{
    let len = text.unicode_len();
    if len > 0 && text.get_char(0) == '+' {
        parse_digits(text.substring_char(1, len))
    } else {
        parse_digits(text)
    }
}

} // verus!
