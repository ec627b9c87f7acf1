//! Whole numbers in decimal notation.

use vstd::prelude::*;
use crate::text::{chars_of, string_of};

verus! {

/// Whether `c` is one of the digits `0` to `9`.
pub open spec fn is_digit(c: char) -> bool {
    48 <= c as u32 <= 57
}

/// The value of the digit `c`.
pub open spec fn digit_value(c: char) -> nat {
    (c as u32 - 48) as nat
}

/// Whether `s` holds digits only.
pub open spec fn all_digits(s: Seq<char>) -> bool {
    forall|i: int| 0 <= i < s.len() ==> is_digit(#[trigger] s[i])
}

/// The number that the digits of `s` write.
pub open spec fn number_of(s: Seq<char>) -> nat
    decreases s.len(),
{
    if s.len() == 0 {
        0
    } else {
        10 * number_of(s.drop_last()) + digit_value(s.last())
    }
}

/// `text` without the `+` that may stand at its beginning.
pub open spec fn unsigned_part(text: Seq<char>) -> Seq<char> {
    if text.len() > 0 && text[0] == '+' {
        text.skip(1)
    } else {
        text
    }
}

/// The number that `text` writes, if it is one of `0` to `max`: a `+` may
/// stand in front, then at least one digit follows, and nothing else.
pub open spec fn unsigned_of(text: Seq<char>, max: nat) -> Option<nat> {
    let digits = unsigned_part(text);
    if digits.len() > 0 && all_digits(digits) && number_of(digits) <= max {
        Some(number_of(digits))
    } else {
        None
    }
}

/// The character of the digit `d`.
pub open spec fn digit_char(d: nat) -> char {
    if d == 0 {
        '0'
    } else if d == 1 {
        '1'
    } else if d == 2 {
        '2'
    } else if d == 3 {
        '3'
    } else if d == 4 {
        '4'
    } else if d == 5 {
        '5'
    } else if d == 6 {
        '6'
    } else if d == 7 {
        '7'
    } else if d == 8 {
        '8'
    } else {
        '9'
    }
}

/// The decimal notation of `n`, without leading zeros.
pub open spec fn digits_of(n: nat) -> Seq<char>
    decreases n,
{
    if n < 10 {
        seq![digit_char(n)]
    } else {
        digits_of(n / 10).push(digit_char(n % 10))
    }
}

proof fn lemma_number_grows(s: Seq<char>, i: int)
    requires
        0 <= i <= s.len(),
    ensures
        number_of(s.take(i)) <= number_of(s),
    decreases s.len() - i,
{
    if i < s.len() {
        lemma_number_grows(s, i + 1);
        assert(s.take(i + 1).drop_last() == s.take(i));
    } else {
        assert(s.take(i) == s);
    }
}

/// Reads a number of `0` to `max` in decimal notation.
pub fn parse_unsigned(text: &str, max: u64) -> (value: Option<u64>)
    ensures
        match value {
            Some(v) => unsigned_of(text@, max as nat) == Some(v as nat),
            None => unsigned_of(text@, max as nat) is None,
        },
{
    let v = chars_of(text);
    let start: usize = if v.len() > 0 && v[0] == '+' { 1 } else { 0 };
    let ghost digits = unsigned_part(text@);
    assert(digits == v@.skip(start as int));
    if start == v.len() {
        return None;
    }
    let mut acc: u64 = 0;
    let mut i: usize = start;
    assert(digits.take(0) =~= Seq::<char>::empty());
    while i < v.len()
        invariant
            start <= i <= v.len(),
            digits == v@.skip(start as int),
            digits == unsigned_part(text@),
            all_digits(digits.take(i - start)),
            number_of(digits.take(i - start)) == acc,
            acc <= max,
        decreases v.len() - i,
    {
        let c = v[i];
        let code: u32 = c as u32;
        let ghost k = i - start;
        assert(digits[k] == c);
        assert(digits.take(k + 1).drop_last() == digits.take(k));
        if code < 48 || code > 57 {
            assert(!is_digit(digits[k]));
            return None;
        }
        let d: u64 = (code - 48) as u64;
        assert(d == digit_value(c));
        if d > max || acc > (max - d) / 10 {
            proof {
                assert(10 * acc + d > max) by (nonlinear_arith)
                    requires
                        d > max || acc > (max - d) / 10,
                        d <= 9,
                        acc >= 0,
                ;
                lemma_number_grows(digits, k + 1);
            }
            return None;
        }
        assert(10 * acc + d <= max) by (nonlinear_arith)
            requires
                acc <= (max - d) / 10,
                d <= max,
        ;
        acc = 10 * acc + d;
        i = i + 1;
        assert forall|j: int| 0 <= j < digits.take(k + 1).len() implies is_digit(
            #[trigger] digits.take(k + 1)[j],
        ) by {
            if j < k {
                assert(digits.take(k)[j] == digits.take(k + 1)[j]);
            }
        }
    }
    assert(digits.take(i - start) == digits);
    Some(acc)
}

fn digit(d: u64) -> (c: char)
    requires
        d < 10,
    ensures
        c == digit_char(d as nat),
{
    if d == 0 {
        '0'
    } else if d == 1 {
        '1'
    } else if d == 2 {
        '2'
    } else if d == 3 {
        '3'
    } else if d == 4 {
        '4'
    } else if d == 5 {
        '5'
    } else if d == 6 {
        '6'
    } else if d == 7 {
        '7'
    } else if d == 8 {
        '8'
    } else {
        '9'
    }
}

/// The decimal notation of `n` as characters.
pub fn decimal_chars(n: u64) -> (out: Vec<char>)
    ensures
        out@ == digits_of(n as nat),
    decreases n,
{
    if n < 10 {
        let mut out: Vec<char> = Vec::new();
        out.push(digit(n));
        out
    } else {
        let mut out = decimal_chars(n / 10);
        out.push(digit(n % 10));
        out
    }
}

/// The decimal notation of `n`.
pub fn decimal(n: u64) -> (text: String)
    ensures
        text@ == digits_of(n as nat),
{
    let out = decimal_chars(n);
    string_of(&out)
}

/// The digits that write a number are digits, and they are at least one.
pub proof fn digits_are_digits(n: nat)
    ensures
        digits_of(n).len() > 0,
        all_digits(digits_of(n)),
        digits_of(n)[0] != '+',
    decreases n,
{
    if n >= 10 {
        digits_are_digits(n / 10);
        let head = digits_of(n / 10);
        assert forall|i: int| 0 <= i < digits_of(n).len() implies is_digit(#[trigger] digits_of(n)[i]) by {
            if i < head.len() {
                assert(digits_of(n)[i] == head[i]);
            }
        }
    }
}

/// Reading undoes writing: the decimal notation of `n` is read as `n`
/// wherever `n` is within the bound.
pub proof fn reading_inverts_writing(n: nat, max: nat)
    requires
        n <= max,
    ensures
        unsigned_of(digits_of(n), max) == Some(n),
    decreases n,
{
    digits_are_digits(n);
    lemma_number_of_digits(n);
}

proof fn lemma_number_of_digits(n: nat)
    ensures
        number_of(digits_of(n)) == n,
    decreases n,
{
    assert(forall|d: nat| d < 10 ==> digit_value(#[trigger] digit_char(d)) == d);
    if n < 10 {
        assert(digits_of(n).drop_last() =~= Seq::<char>::empty());
        assert(digits_of(n).last() == digit_char(n));
        assert(number_of(Seq::<char>::empty()) == 0);
        assert(digit_value(digit_char(n)) == n);
    } else {
        lemma_number_of_digits(n / 10);
        assert(digits_of(n).drop_last() =~= digits_of(n / 10));
        assert(digits_of(n).last() == digit_char(n % 10));
        assert(digit_value(digit_char(n % 10)) == n % 10);
        assert(number_of(digits_of(n)) == 10 * number_of(digits_of(n).drop_last()) + digit_value(
            digits_of(n).last(),
        ));
    }
}

} // verus!
