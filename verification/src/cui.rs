//! The CUI check-digit rule.
//!
//! A candidate is a string of 4 to 10 ASCII decimal digits. Its last digit is
//! the check digit; the digits before it form the base, which is read as a
//! nine-digit number with leading zeros. The base digits are weighted by
//! 7, 5, 3, 2, 1, 7, 5, 3, 2 and summed; the sum modulo 11 is the expected
//! check digit, with a remainder of 10 standing for the digit 0.

use vstd::prelude::*;
use vstd::string::*;

verus! {

/// Shortest candidate: three base digits and the check digit.
pub const MIN_LEN: usize = 4;

/// Longest candidate: nine base digits and the check digit.
pub const MAX_LEN: usize = 10;

/// Number of digits of the base once it is padded.
pub const BASE_LEN: usize = 9;

/// `c` is one of the ASCII characters `0` to `9`.
pub open spec fn is_digit(c: char) -> bool {
    '0' <= c <= '9'
}

/// The number that the ASCII digit `c` stands for.
pub open spec fn digit_value(c: char) -> int
    recommends
        is_digit(c),
{
    c as int - '0' as int
}

/// The ASCII digit that stands for `v`.
pub open spec fn digit_char(v: int) -> char
    recommends
        0 <= v <= 9,
{
    ('0' as int + v) as char
}

/// Every character of `s` is an ASCII digit.
pub open spec fn all_digits(s: Seq<char>) -> bool {
    forall|i: int| 0 <= i < s.len() ==> is_digit(#[trigger] s[i])
}

/// The length of `s` is one that a candidate may have.
pub open spec fn length_in_range(s: Seq<char>) -> bool {
    MIN_LEN <= s.len() <= MAX_LEN
}

/// The base of `s`: all but its last character, with as many `0` in front as
/// make nine characters.
pub open spec fn padded_base(s: Seq<char>) -> Seq<char>
    recommends
        length_in_range(s),
{
    let pad = MAX_LEN - s.len();
    Seq::new(
        BASE_LEN as nat,
        |i: int|
            if i < pad {
                '0'
            } else {
                s[i - pad]
            },
    )
}

/// The weighted sum of nine digits: from the left, the weights are
/// 7, 5, 3, 2, 1, 7, 5, 3, 2.
pub open spec fn weighted_sum(d: Seq<char>) -> int
    recommends
        d.len() == BASE_LEN,
{
    digit_value(d[0]) * 7 + digit_value(d[1]) * 5 + digit_value(d[2]) * 3 + digit_value(d[3]) * 2
        + digit_value(d[4]) * 1 + digit_value(d[5]) * 7 + digit_value(d[6]) * 5 + digit_value(d[7])
        * 3 + digit_value(d[8]) * 2
}

/// The check digit that belongs to a weighted sum.
pub open spec fn expected_check_digit(sum: int) -> char
    recommends
        sum >= 0,
{
    let rest = sum % 11;
    if rest == 10 {
        '0'
    } else {
        digit_char(rest)
    }
}

/// `s` is a valid CUI.
pub open spec fn is_valid_cui(s: Seq<char>) -> bool {
    &&& all_digits(s)
    &&& length_in_range(s)
    &&& s.last() == expected_check_digit(weighted_sum(padded_base(s)))
}

/// A string that holds a character other than an ASCII digit is no valid
/// CUI, wherever the character stands and whatever the rest is.
pub proof fn lemma_non_digit_is_invalid(s: Seq<char>, i: int)
    requires
        0 <= i < s.len(),
        !is_digit(s[i]),
    ensures
        !is_valid_cui(s),
{
}

/// A string of fewer than four or more than ten characters is no valid CUI,
/// whatever its characters are.
pub proof fn lemma_bad_length_is_invalid(s: Seq<char>)
    requires
        s.len() < MIN_LEN || s.len() > MAX_LEN,
    ensures
        !is_valid_cui(s),
{
}

/// Validity depends on the text alone: two strings with the same characters
/// are both valid or both invalid, so asking twice gives the same answer.
pub proof fn lemma_same_text_same_answer(a: &str, b: &str)
    requires
        a@ == b@,
    ensures
        is_valid_cui(a@) == is_valid_cui(b@),
{
}

/// The base decides the check digit: two valid CUIs that differ at most in
/// their last character are the same string.
pub proof fn lemma_check_digit_is_unique(a: Seq<char>, b: Seq<char>)
    requires
        is_valid_cui(a),
        is_valid_cui(b),
        a.len() == b.len(),
        a.drop_last() == b.drop_last(),
    ensures
        a == b,
{
    let n = a.len() as int;
    assert forall|i: int| 0 <= i < n - 1 implies a[i] == b[i] by {
        assert(a[i] == a.drop_last()[i]);
        assert(b[i] == b.drop_last()[i]);
    }
    assert(padded_base(a) =~= padded_base(b));
    assert(a =~= b);
}

/// The code of the character `0`.
const ASCII_ZERO: u8 = 48;

/// The code of the character `9`.
const ASCII_NINE: u8 = 57;

/// The bytes of an ASCII string: one for each character, with its code.
fn ascii_bytes(cui: &str) -> (bytes: &[u8])
    requires
        is_ascii(cui),
    ensures
        bytes@.len() == cui@.len(),
        forall|i: int| 0 <= i < bytes@.len() ==> cui@[i] as int == #[trigger] bytes@[i] as int,
{
    broadcast use is_ascii_spec_bytes;

    let bytes: &[u8] = cui.as_bytes();
    assert forall|i: int| 0 <= i < bytes@.len() implies cui@[i] as int == #[trigger] bytes@[i]
        as int by {
        assert('\0' <= cui@[i] <= '\u{7f}');
    }
    bytes
}

/// Tells whether `cui` is made of ASCII digits only.
pub fn only_digits(cui: &str) -> (r: bool)
    ensures
        r == all_digits(cui@),
{
    if !cui.is_ascii() {
        return false;
    }
    let bytes: &[u8] = ascii_bytes(cui);
    let n: usize = bytes.len();
    let mut i: usize = 0;
    while i < n
        invariant
            n == cui@.len(),
            bytes@.len() == n,
            forall|j: int| 0 <= j < n ==> cui@[j] as int == #[trigger] bytes@[j] as int,
            i <= n,
            forall|j: int| 0 <= j < i ==> is_digit(#[trigger] cui@[j]),
        decreases n - i,
    {
        let b: u8 = bytes[i];
        if b < ASCII_ZERO || b > ASCII_NINE {
            assert(!is_digit(cui@[i as int]));
            return false;
        }
        i += 1;
    }
    true
}

/// The nine digits of the padded base of `cui`, as numbers.
fn padded_digits(cui: &str) -> (d: Vec<u32>)
    requires
        all_digits(cui@),
        length_in_range(cui@),
    ensures
        d@.len() == BASE_LEN,
        forall|i: int|
            0 <= i < BASE_LEN ==> #[trigger] d@[i] == digit_value(padded_base(cui@)[i]),
        forall|i: int| 0 <= i < BASE_LEN ==> 0 <= #[trigger] d@[i] <= 9,
{
    proof {
        lemma_digits_are_ascii(cui);
    }
    let bytes: &[u8] = ascii_bytes(cui);
    let n: usize = bytes.len();
    let pad: usize = MAX_LEN - n;
    let mut d: Vec<u32> = Vec::with_capacity(BASE_LEN);
    let mut i: usize = 0;
    while i < BASE_LEN
        invariant
            all_digits(cui@),
            n == cui@.len(),
            bytes@.len() == n,
            forall|j: int| 0 <= j < n ==> cui@[j] as int == #[trigger] bytes@[j] as int,
            MIN_LEN <= n <= MAX_LEN,
            pad == MAX_LEN - n,
            i <= BASE_LEN,
            d@.len() == i,
            forall|j: int| 0 <= j < i ==> #[trigger] d@[j] == digit_value(padded_base(cui@)[j]),
            forall|j: int| 0 <= j < i ==> 0 <= #[trigger] d@[j] <= 9,
        decreases BASE_LEN - i,
    {
        if i < pad {
            d.push(0);
        } else {
            let b: u8 = bytes[i - pad];
            assert(is_digit(cui@[i - pad]));
            d.push((b - ASCII_ZERO) as u32);
        }
        i += 1;
    }
    d
}

/// A string of digits is an ASCII string.
proof fn lemma_digits_are_ascii(cui: &str)
    requires
        all_digits(cui@),
    ensures
        is_ascii(cui),
{
    assert forall|i: int| 0 <= i < cui@.len() implies '\0' <= #[trigger] cui@[i] <= '\u{7f}' by {
        assert(is_digit(cui@[i]));
    }
}

/// Tells whether `cui` is a valid CUI. Every string is accepted as input;
/// one that is malformed is simply not valid.
pub fn validate_cui(cui: &str) -> (valid: bool)
    ensures
        valid == is_valid_cui(cui@),
        !all_digits(cui@) ==> !valid,
        cui@.len() < MIN_LEN || cui@.len() > MAX_LEN ==> !valid,
{
    if !only_digits(cui) {
        return false;
    }
    proof {
        lemma_digits_are_ascii(cui);
    }
    let bytes: &[u8] = ascii_bytes(cui);
    let n: usize = bytes.len();
    if n < MIN_LEN || n > MAX_LEN {
        return false;
    }
    let check_digit: u8 = bytes[n - 1];
    let d: Vec<u32> = padded_digits(cui);
    let sum: u32 = d[0] * 7 + d[1] * 5 + d[2] * 3 + d[3] * 2 + d[4] * 1 + d[5] * 7 + d[6] * 5
        + d[7] * 3 + d[8] * 2;
    let rest: u32 = sum % 11;
    if rest == 10 {
        return check_digit == ASCII_ZERO;
    }
    check_digit as u32 == ASCII_ZERO as u32 + rest
}

} // verus!
