//! The number grammars of the attribute language: unsigned decimal counts,
//! and the literals that stand before a `%`.

use vstd::prelude::*;

verus! {

/// An ASCII decimal digit.
pub open spec fn is_digit(c: char) -> bool {
    '0' <= c <= '9'
}

/// The value of a decimal digit.
pub open spec fn digit_value(c: char) -> nat {
    (c as int - '0' as int) as nat
}

/// Every character is a decimal digit.
pub open spec fn all_digits(s: Seq<char>) -> bool {
    forall|i: int| 0 <= i < s.len() ==> is_digit(#[trigger] s[i])
}

/// The number that a run of decimal digits writes.
pub open spec fn decimal_value(s: Seq<char>) -> nat
    decreases s.len(),
{
    if s.len() == 0 {
        0
    } else {
        decimal_value(s.drop_last()) * 10 + digit_value(s.last())
    }
}

/// An unsigned decimal count: one or more digits whose value fits 64 bits.
pub open spec fn decimal(s: Seq<char>) -> Option<u64> {
    if s.len() > 0 && all_digits(s) && decimal_value(s) <= u64::MAX {
        Some(decimal_value(s) as u64)
    } else {
        None
    }
}

/// A count as `u64` is read from text: a decimal count, which one `+` may
/// precede.
pub open spec fn signed_decimal(s: Seq<char>) -> Option<u64> {
    if s.len() > 0 && s[0] == '+' {
        decimal(s.skip(1))
    } else {
        decimal(s)
    }
}

/// Decides [`is_digit`].
pub fn char_is_digit(c: char) -> (r: bool)
    ensures
        r == is_digit(c),
{
    '0' <= c && c <= '9'
}

/// A prefix of a run of digits writes no larger a number than the whole run.
pub proof fn lemma_decimal_value_prefix(s: Seq<char>, k: int)
    requires
        0 <= k <= s.len(),
    ensures
        decimal_value(s.take(k)) <= decimal_value(s),
    decreases s.len(),
{
    if k == s.len() {
        assert(s.take(k) == s);
    } else {
        assert(s.drop_last().take(k) == s.take(k));
        lemma_decimal_value_prefix(s.drop_last(), k);
    }
}

/// Reads an unsigned decimal count.
pub fn parse_decimal(s: &[char]) -> (r: Option<u64>)
    ensures
        r == decimal(s@),
{
    let n = s.len();
    if n == 0 {
        return None;
    }
    let mut value: u64 = 0;
    let mut i: usize = 0;
    while i < n
        invariant
            n == s@.len(),
            i <= n,
            all_digits(s@.take(i as int)),
            value == decimal_value(s@.take(i as int)),
        decreases n - i,
    {
        let c = s[i];
        if !char_is_digit(c) {
            return None;
        }
        let digit: u64 = (c as u32 - '0' as u32) as u64;
        proof {
            let next = s@.take(i + 1);
            assert(next.drop_last() == s@.take(i as int));
            assert(next.last() == c);
            assert(decimal_value(next) == value * 10 + digit);
            lemma_decimal_value_prefix(s@, i + 1);
        }
        let shifted = match value.checked_mul(10) {
            Some(v) => v,
            None => {
                return None;
            },
        };
        value = match shifted.checked_add(digit) {
            Some(v) => v,
            None => {
                return None;
            },
        };
        i += 1;
    }
    assert(s@.take(n as int) == s@);
    Some(value)
}

/// Reads a count as `u64` is read from text.
pub fn parse_signed_decimal(s: &[char]) -> (r: Option<u64>)
    ensures
        r == signed_decimal(s@),
{
    if s.len() > 0 && s[0] == '+' {
        let rest = vstd::slice::slice_subrange(s, 1, s.len());
        assert(rest@ == s@.skip(1));
        parse_decimal(rest)
    } else {
        parse_decimal(s)
    }
}

/// How many decimal digits a text starts with.
pub open spec fn digits_len(s: Seq<char>) -> nat
    decreases s.len(),
{
    if s.len() > 0 && is_digit(s[0]) {
        1 + digits_len(s.skip(1))
    } else {
        0
    }
}

/// A sign.
pub open spec fn is_sign(c: char) -> bool {
    c == '+' || c == '-'
}

/// A text without the sign that it may start with.
pub open spec fn unsigned_part(s: Seq<char>) -> Seq<char> {
    if s.len() > 0 && is_sign(s[0]) {
        s.skip(1)
    } else {
        s
    }
}

/// `c` is the lower-case letter `letter`, in either case.
pub open spec fn is_letter(c: char, letter: char) -> bool {
    c == letter || ('A' <= c <= 'Z' && c as int + 32 == letter as int)
}

/// `s` spells the lower-case word `word`, in any mix of cases.
pub open spec fn spells(s: Seq<char>, word: Seq<char>) -> bool {
    &&& s.len() == word.len()
    &&& forall|i: int| 0 <= i < s.len() ==> is_letter(#[trigger] s[i], word[i])
}

/// One of the names of the values that are no numbers.
pub open spec fn is_special(s: Seq<char>) -> bool {
    spells(s, "inf"@) || spells(s, "infinity"@) || spells(s, "nan"@)
}

/// An exponent: `e` or `E`, an optional sign, one or more digits.
pub open spec fn is_exponent(s: Seq<char>) -> bool {
    &&& s.len() > 0
    &&& is_letter(s[0], 'e')
    &&& unsigned_part(s.skip(1)).len() > 0
    &&& all_digits(unsigned_part(s.skip(1)))
}

/// What follows the integer digits of a decimal number: an optional point
/// with its fraction digits, as `(digits, rest)`.
pub open spec fn fraction(s: Seq<char>) -> (nat, Seq<char>) {
    if s.len() > 0 && s[0] == '.' {
        (digits_len(s.skip(1)), s.skip(1 + digits_len(s.skip(1)) as int))
    } else {
        (0, s)
    }
}

/// A decimal number: digits, with an optional point among, before or after
/// them, and an optional exponent.
pub open spec fn is_decimal_number(s: Seq<char>) -> bool {
    let whole = digits_len(s);
    let (part, rest) = fraction(s.skip(whole as int));
    whole + part > 0 && (rest.len() == 0 || is_exponent(rest))
}

/// The literals that stand for a value in floating point: an optional sign,
/// then a decimal number or one of `inf`, `infinity` and `nan`.
pub open spec fn is_number_literal(s: Seq<char>) -> bool {
    is_special(unsigned_part(s)) || is_decimal_number(unsigned_part(s))
}

/// The digits that a text starts with are digits, and what follows them is
/// none.
pub proof fn lemma_digits_len(s: Seq<char>)
    ensures
        digits_len(s) <= s.len(),
        all_digits(s.take(digits_len(s) as int)),
        digits_len(s) < s.len() ==> !is_digit(s[digits_len(s) as int]),
        all_digits(s) <==> digits_len(s) == s.len(),
    decreases s.len(),
{
    if s.len() > 0 && is_digit(s[0]) {
        let t = s.skip(1);
        lemma_digits_len(t);
        let n = digits_len(t) as int;
        assert forall|i: int| 0 <= i < n + 1 implies is_digit(#[trigger] s.take(n + 1)[i]) by {
            if i > 0 {
                assert(s.take(n + 1)[i] == t.take(n)[i - 1]);
            }
        }
        if all_digits(s) {
            assert forall|i: int| 0 <= i < t.len() implies is_digit(#[trigger] t[i]) by {
                assert(t[i] == s[i + 1]);
            }
        }
        if n == t.len() {
            assert(t.take(n) == t);
            assert forall|i: int| 0 <= i < s.len() implies is_digit(#[trigger] s[i]) by {
                if i > 0 {
                    assert(s[i] == t[i - 1]);
                }
            }
        }
    } else {
        if s.len() > 0 {
            assert(!is_digit(s[0]));
        }
    }
}

/// Counts the decimal digits that stand at `from`.
fn count_digits(s: &[char], from: usize) -> (n: usize)
    requires
        from <= s@.len(),
    ensures
        n == digits_len(s@.skip(from as int)),
        from + n <= s@.len(),
{
    let len = s.len();
    let mut i: usize = from;
    while i < len && char_is_digit(s[i])
        invariant
            len == s@.len(),
            from <= i <= len,
            digits_len(s@.skip(from as int)) == (i - from) + digits_len(s@.skip(i as int)),
        decreases len - i,
    {
        assert(s@.skip(i as int).skip(1) == s@.skip(i + 1));
        i += 1;
    }
    i - from
}

/// Decides [`is_letter`].
fn char_is_letter(c: char, letter: char) -> (r: bool)
    ensures
        r == is_letter(c, letter),
{
    c == letter || ('A' <= c && c <= 'Z' && c as u32 + 32 == letter as u32)
}

/// Whether the characters from `from` on spell `word`, in any mix of cases.
fn spells_from(s: &[char], from: usize, word: &str) -> (r: bool)
    requires
        from <= s@.len(),
    ensures
        r == spells(s@.skip(from as int), word@),
{
    let len = s.len();
    let n = word.unicode_len();
    if len - from != n {
        return false;
    }
    let ghost rest = s@.skip(from as int);
    let mut i: usize = 0;
    while i < n
        invariant
            len == s@.len(),
            from + n == len,
            n == word@.len(),
            rest == s@.skip(from as int),
            i <= n,
            forall|k: int| 0 <= k < i ==> is_letter(#[trigger] rest[k], word@[k]),
        decreases n - i,
    {
        assert(rest[i as int] == s[from + i]);
        if !char_is_letter(s[from + i], word.get_char(i)) {
            return false;
        }
        i += 1;
    }
    true
}

/// Whether an exponent, and nothing else, stands at `at`.
fn exponent_at(s: &[char], at: usize) -> (r: bool)
    requires
        at <= s@.len(),
    ensures
        r == is_exponent(s@.skip(at as int)),
{
    let len = s.len();
    let ghost rest = s@.skip(at as int);
    if at == len {
        return false;
    }
    assert(rest[0] == s[at as int]);
    if !char_is_letter(s[at], 'e') {
        return false;
    }
    let mut digits_at: usize = at + 1;
    assert(rest.skip(1) == s@.skip(at + 1));
    if digits_at < len && (s[digits_at] == '+' || s[digits_at] == '-') {
        assert(s@.skip(at + 1).skip(1) == s@.skip(at + 2));
        digits_at = digits_at + 1;
    }
    assert(unsigned_part(rest.skip(1)) == s@.skip(digits_at as int));
    let digits = count_digits(s, digits_at);
    proof {
        lemma_digits_len(s@.skip(digits_at as int));
    }
    digits > 0 && digits_at + digits == len
}

/// Whether a decimal number, and nothing else, stands at `start`.
fn decimal_number_at(s: &[char], start: usize) -> (r: bool)
    requires
        start <= s@.len(),
    ensures
        r == is_decimal_number(s@.skip(start as int)),
{
    let len = s.len();
    let ghost body = s@.skip(start as int);
    let whole = count_digits(s, start);
    let mut at: usize = start + whole;
    let mut part: usize = 0;
    assert(body.skip(whole as int) == s@.skip(at as int));
    if at < len && s[at] == '.' {
        part = count_digits(s, at + 1);
        assert(s@.skip(at as int).skip(1) == s@.skip(at + 1));
        assert(s@.skip(at as int).skip(1 + part) == s@.skip(at + 1 + part));
        at = at + 1 + part;
    }
    assert(fraction(body.skip(whole as int)) == (part as nat, s@.skip(at as int)));
    if whole + part == 0 {
        return false;
    }
    at == len || exponent_at(s, at)
}

/// Decides [`is_number_literal`].
pub fn is_number(s: &[char]) -> (r: bool)
    ensures
        r == is_number_literal(s@),
{
    let start: usize = if s.len() > 0 && (s[0] == '+' || s[0] == '-') {
        1
    } else {
        0
    };
    assert(s@.skip(start as int) == unsigned_part(s@));
    spells_from(s, start, "inf") || spells_from(s, start, "infinity") || spells_from(
        s,
        start,
        "nan",
    ) || decimal_number_at(s, start)
}

} // verus!
