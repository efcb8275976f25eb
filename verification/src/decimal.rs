//! Reading a base-unit amount from plain text.
//!
//! The text is an unsigned decimal integer, surrounded by any amount of white
//! space and optionally led by a plus sign.

use vstd::prelude::*;
use crate::text::chars_of;

verus! {

/// Why a text is no amount.
#[derive(Clone, Copy, Debug, PartialEq, Eq, Structural)]
pub enum ParseFault {
    /// Nothing is left once the white space is taken off.
    Empty,
    /// A character that is no decimal digit, or a sign with nothing after it.
    InvalidDigit,
    /// The digits read so far already exceed the largest amount.
    TooLarge,
}

/// White space: the characters with the Unicode property `White_Space`.
pub open spec fn is_whitespace(c: char) -> bool {
    let n = c as u32;
    ||| 0x09 <= n <= 0x0d
    ||| n == 0x20
    ||| n == 0x85
    ||| n == 0xa0
    ||| n == 0x1680
    ||| 0x2000 <= n <= 0x200a
    ||| n == 0x2028
    ||| n == 0x2029
    ||| n == 0x202f
    ||| n == 0x205f
    ||| n == 0x3000
}

/// How many white space characters stand at the front of `s`.
pub open spec fn leading_whitespace(s: Seq<char>) -> nat
    decreases s.len(),
{
    if s.len() > 0 && is_whitespace(s[0]) {
        1 + leading_whitespace(s.drop_first())
    } else {
        0
    }
}

/// How many white space characters stand at the end of `s`.
pub open spec fn trailing_whitespace(s: Seq<char>) -> nat
    decreases s.len(),
{
    if s.len() > 0 && is_whitespace(s.last()) {
        1 + trailing_whitespace(s.drop_last())
    } else {
        0
    }
}

/// `s` without the white space at its front and at its end.
pub open spec fn trimmed(s: Seq<char>) -> Seq<char> {
    let rest = s.skip(leading_whitespace(s) as int);
    rest.take(rest.len() - trailing_whitespace(rest))
}

/// A decimal digit, `0` to `9`.
pub open spec fn is_digit(c: char) -> bool {
    '0' <= c <= '9'
}

/// The value of a decimal digit; zero for any other character.
pub open spec fn digit_value(c: char) -> nat {
    if is_digit(c) {
        (c as u32 - '0' as u32) as nat
    } else {
        0
    }
}

/// The number that the digits of `s` write in base ten.
pub open spec fn decimal_value(s: Seq<char>) -> nat
    decreases s.len(),
{
    if s.len() == 0 {
        0
    } else {
        10 * decimal_value(s.drop_last()) + digit_value(s.last())
    }
}

/// How many decimal digits stand at the front of `s`.
pub open spec fn digit_prefix_len(s: Seq<char>) -> nat
    decreases s.len(),
{
    if s.len() > 0 && is_digit(s[0]) {
        1 + digit_prefix_len(s.drop_first())
    } else {
        0
    }
}

/// `s` without a plus sign at its front.
pub open spec fn unsigned_part(s: Seq<char>) -> Seq<char> {
    if s.len() > 0 && s[0] == '+' {
        s.skip(1)
    } else {
        s
    }
}

/// The amount that `s` writes. The text is read from the left, and the first
/// thing that is wrong with it decides the fault: digits that already exceed
/// the largest amount come before a later character that is no digit.
pub open spec fn spec_parse_amount(s: Seq<char>) -> Result<u64, ParseFault> {
    let digits = unsigned_part(s);
    let run = digits.take(digit_prefix_len(digits) as int);
    if s.len() == 0 {
        Err(ParseFault::Empty)
    } else if digits.len() == 0 {
        Err(ParseFault::InvalidDigit)
    } else if decimal_value(run) > u64::MAX {
        Err(ParseFault::TooLarge)
    } else if run.len() < digits.len() {
        Err(ParseFault::InvalidDigit)
    } else {
        Ok(decimal_value(digits) as u64)
    }
}

proof fn lemma_leading_whitespace(s: Seq<char>, count: int)
    requires
        0 <= count <= s.len(),
        forall|j: int| 0 <= j < count ==> is_whitespace(s[j]),
        count == s.len() || !is_whitespace(s[count]),
    ensures
        leading_whitespace(s) == count,
    decreases count,
{
    if count > 0 {
        lemma_leading_whitespace(s.drop_first(), count - 1);
    }
}

proof fn lemma_trailing_whitespace(s: Seq<char>, count: int)
    requires
        0 <= count <= s.len(),
        forall|j: int| s.len() - count <= j < s.len() ==> is_whitespace(s[j]),
        count == s.len() || !is_whitespace(s[s.len() - count - 1]),
    ensures
        trailing_whitespace(s) == count,
    decreases count,
{
    if count > 0 {
        lemma_trailing_whitespace(s.drop_last(), count - 1);
    }
}

proof fn lemma_digit_prefix_covers(s: Seq<char>, count: int)
    requires
        0 <= count <= s.len(),
        forall|j: int| 0 <= j < count ==> is_digit(s[j]),
    ensures
        count <= digit_prefix_len(s) <= s.len(),
        count == s.len() || !is_digit(s[count]) ==> digit_prefix_len(s) == count,
    decreases s.len(),
{
    if s.len() > 0 && is_digit(s[0]) {
        if count > 0 {
            lemma_digit_prefix_covers(s.drop_first(), count - 1);
        } else {
            lemma_digit_prefix_covers(s.drop_first(), 0);
        }
    }
}

proof fn lemma_decimal_value_grows(s: Seq<char>, shorter: int, longer: int)
    requires
        0 <= shorter <= longer <= s.len(),
    ensures
        decimal_value(s.take(shorter)) <= decimal_value(s.take(longer)),
    decreases longer - shorter,
{
    if shorter < longer {
        lemma_decimal_value_grows(s, shorter, longer - 1);
        assert(s.take(longer).drop_last() =~= s.take(longer - 1));
    }
}

/// Whether `c` is white space.
pub fn is_space(c: char) -> (space: bool)
    ensures
        space == is_whitespace(c),
{
    let n: u32 = c as u32;
    (0x09 <= n && n <= 0x0d) || n == 0x20 || n == 0x85 || n == 0xa0 || n == 0x1680 || (0x2000
        <= n && n <= 0x200a) || n == 0x2028 || n == 0x2029 || n == 0x202f || n == 0x205f || n
        == 0x3000
}

/// The bounds of `chars` without the white space at its front and end.
fn trim_bounds(chars: &Vec<char>) -> (bounds: (usize, usize))
    ensures
        bounds.0 <= bounds.1 <= chars.len(),
        chars@.subrange(bounds.0 as int, bounds.1 as int) == trimmed(chars@),
{
    let mut start: usize = 0;
    while start < chars.len() && is_space(chars[start])
        invariant
            start <= chars.len(),
            forall|j: int| 0 <= j < start ==> is_whitespace(chars@[j]),
        decreases chars.len() - start,
    {
        start += 1;
    }
    let mut end: usize = chars.len();
    while end > start && is_space(chars[end - 1])
        invariant
            start <= end <= chars.len(),
            forall|j: int| end <= j < chars.len() ==> is_whitespace(chars@[j]),
        decreases end,
    {
        end -= 1;
    }
    proof {
        lemma_leading_whitespace(chars@, start as int);
        let rest = chars@.skip(start as int);
        lemma_trailing_whitespace(rest, chars.len() - end);
        assert(rest.take(rest.len() - (chars.len() - end)) =~= chars@.subrange(
            start as int,
            end as int,
        ));
    }
    (start, end)
}

/// Reads the amount that `text` writes: white space at both ends is taken
/// off, one plus sign may lead, and the rest must be decimal digits whose
/// value is an amount.
pub fn parse_amount(text: &str) -> (outcome: Result<u64, ParseFault>)
    ensures
        outcome == spec_parse_amount(trimmed(text@)),
{
    let chars = chars_of(text);
    let (start, end) = trim_bounds(&chars);
    let ghost body = chars@.subrange(start as int, end as int);
    if start == end {
        return Err(ParseFault::Empty);
    }
    let first: usize = if chars[start] == '+' {
        start + 1
    } else {
        start
    };
    let ghost digits = chars@.subrange(first as int, end as int);
    assert(digits =~= unsigned_part(body));
    if first == end {
        return Err(ParseFault::InvalidDigit);
    }
    let mut amount: u64 = 0;
    let mut i: usize = first;
    assert(digits.take(0) =~= Seq::<char>::empty());
    while i < end
        invariant
            first <= i <= end <= chars.len(),
            digits == chars@.subrange(first as int, end as int),
            digits == unsigned_part(trimmed(text@)),
            trimmed(text@).len() > 0,
            forall|j: int| 0 <= j < i - first ==> is_digit(digits[j]),
            amount == decimal_value(digits.take(i - first)),
        decreases end - i,
    {
        let c: char = chars[i];
        if !('0' <= c && c <= '9') {
            proof {
                lemma_digit_prefix_covers(digits, i - first);
            }
            return Err(ParseFault::InvalidDigit);
        }
        let digit: u32 = c as u32 - '0' as u32;
        let next: u128 = amount as u128 * 10 + digit as u128;
        proof {
            assert(digits.take(i - first + 1).drop_last() =~= digits.take(i - first));
            assert(next == decimal_value(digits.take(i - first + 1)));
        }
        if next > u64::MAX as u128 {
            proof {
                lemma_digit_prefix_covers(digits, i - first + 1);
                lemma_decimal_value_grows(
                    digits,
                    i - first + 1,
                    digit_prefix_len(digits) as int,
                );
            }
            return Err(ParseFault::TooLarge);
        }
        amount = next as u64;
        i += 1;
    }
    proof {
        lemma_digit_prefix_covers(digits, digits.len() as int);
        assert(digits.take(digits.len() as int) =~= digits);
    }
    Ok(amount)
}

impl ParseFault {
    /// The message of the fault.
    pub open spec fn spec_message(self) -> Seq<char> {
        match self {
            ParseFault::Empty => "cannot parse integer from empty string"@,
            ParseFault::InvalidDigit => "invalid digit found in string"@,
            ParseFault::TooLarge => "number too large to fit in target type"@,
        }
    }

    /// The message that the fault is reported with.
    pub fn message(self) -> (message: &'static str)
        ensures
            message@ == self.spec_message(),
    {
        match self {
            ParseFault::Empty => "cannot parse integer from empty string",
            ParseFault::InvalidDigit => "invalid digit found in string",
            ParseFault::TooLarge => "number too large to fit in target type",
        }
    }
}

} // verus!
