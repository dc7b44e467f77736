//! From a number to the primitive integer types.
//!
//! A number becomes an integer by the digits of its rendering: the fraction is
//! dropped, a value beyond the bounds of the integer type becomes the bound on
//! its side, and what is no number becomes zero. For a number of a size below
//! 2^53 this is what a cast of the float gives. A larger float need not be the
//! integer that its rendering writes, and here the rendering is what counts.

use vstd::prelude::*;
use vstd::std_specs::convert::FromSpecImpl;

use crate::from_integer::{integer_text, lemma_natural_text, natural_text};
use crate::number::{is_infinite, is_negative, unsigned, FluentNumber};
use crate::text::{
    chars_of, decimal_value, digit_prefix_len, digit_value, is_digit, lemma_decimal_value_grows,
    lemma_digit_prefix_ends, spells,
};

verus! {

/// The integer digits of `value`: those that its unsigned part starts with.
pub open spec fn integer_digits(value: Seq<char>) -> Seq<char> {
    unsigned(value).take(digit_prefix_len(unsigned(value)) as int)
}

/// The number rendered as `value`, its fraction dropped, brought into the
/// range from `lowest` to `highest`. An infinity gives the bound on its side,
/// and a value without integer digits, such as `NaN`, gives zero.
pub open spec fn saturated(value: Seq<char>, lowest: int, highest: int) -> int
    recommends
        lowest <= 0 <= highest,
{
    let size = decimal_value(integer_digits(value)) as int;
    if is_negative(value) {
        if is_infinite(value) || -size < lowest {
            lowest
        } else {
            -size
        }
    } else {
        if is_infinite(value) || size > highest {
            highest
        } else {
            size
        }
    }
}

/// Turning an integer into a number and the number back into an integer gives
/// the integer again, brought into the range of the type that receives it.
pub proof fn lemma_integer_roundtrip(n: int, lowest: int, highest: int)
    requires
        lowest <= 0 <= highest,
    ensures
        saturated(integer_text(n), lowest, highest) == if n < lowest {
            lowest
        } else if n > highest {
            highest
        } else {
            n
        },
{
    let text = integer_text(n);
    let size: nat = if n < 0 {
        (-n) as nat
    } else {
        n as nat
    };
    let digits = natural_text(size);
    lemma_natural_text(size);
    assert(is_digit(digits[0]));
    assert(is_negative(text) == (n < 0));
    assert(unsigned(text) == digits);
    reveal_strlit("inf");
    assert("inf"@[0] == 'i');
    assert(!is_infinite(text));
    lemma_digit_prefix_ends(digits, digits.len());
    assert(digits.take(digits.len() as int) == digits);
}

/// The size of the integer part of the unsigned numeral `chars`, at most
/// `limit`.
fn integer_size(chars: &Vec<char>, start: usize, limit: u128) -> (size: u128)
    requires
        start <= chars.len(),
    ensures
        size == if decimal_value(
            chars@.skip(start as int).take(digit_prefix_len(chars@.skip(start as int)) as int),
        ) > limit {
            limit as nat
        } else {
            decimal_value(
                chars@.skip(start as int).take(digit_prefix_len(chars@.skip(start as int)) as int),
            )
        },
{
    let ghost s = chars@.skip(start as int);
    let mut end = start;
    while end < chars.len() && chars[end] >= '0' && chars[end] <= '9'
        invariant
            start <= end <= chars.len(),
            s == chars@.skip(start as int),
            forall|j: int| 0 <= j < end - start ==> is_digit(#[trigger] s[j]),
        decreases chars.len() - end,
    {
        end = end + 1;
    }
    proof {
        lemma_digit_prefix_ends(s, (end - start) as nat);
    }
    let ghost run = (end - start) as int;
    let mut size: u128 = 0;
    let mut at = start;
    assert(s.take(0) =~= Seq::<char>::empty());
    while at < end
        invariant
            start <= at <= end <= chars.len(),
            s == chars@.skip(start as int),
            run == end - start,
            digit_prefix_len(s) == run,
            forall|j: int| 0 <= j < run ==> is_digit(#[trigger] s[j]),
            size == decimal_value(s.take(at - start)),
            size <= limit,
        decreases end - at,
    {
        proof {
            assert(s[at - start] == chars@[at as int]);
            assert(is_digit(s[at - start]));
        }
        let digit = (chars[at] as u32 - '0' as u32) as u128;
        proof {
            let longer = s.take(at - start + 1);
            assert(longer.drop_last() == s.take(at - start));
            assert(longer.last() == s[at - start]);
            assert(digit == digit_value(chars@[at as int]));
            assert(decimal_value(longer) == 10 * size + digit);
            lemma_decimal_value_grows(s, at - start + 1, run);
        }
        if digit > limit || size > (limit - digit) / 10 {
            return limit;
        }
        size = size * 10 + digit;
        at = at + 1;
    }
    size
}

impl FluentNumber {
    /// Whether this number bears a minus sign, and its size as an integer:
    /// at most `lowest_size` below zero and at most `highest` above.
    fn saturating_parts(&self, lowest_size: u128, highest: u128) -> (parts: (bool, u128))
        ensures
            parts.0 == is_negative(self@.value),
            parts.0 ==> parts.1 <= lowest_size && -(parts.1 as int) == saturated(
                self@.value,
                -(lowest_size as int),
                highest as int,
            ),
            !parts.0 ==> parts.1 <= highest && parts.1 == saturated(
                self@.value,
                -(lowest_size as int),
                highest as int,
            ),
    {
        let chars = chars_of(self.value.as_str());
        let negative = chars.len() > 0 && chars[0] == '-';
        proof {
            reveal_strlit("inf");
            reveal_strlit("-inf");
            if negative {
                assert(chars@.skip(1) == unsigned(chars@));
                if chars@ == "-inf"@ {
                    assert(unsigned(chars@) =~= "inf"@);
                }
                if unsigned(chars@) == "inf"@ {
                    assert(chars@.len() == 4);
                    assert(forall|j: int| 1 <= j < 4 ==> chars@[j] == unsigned(chars@)[j - 1]);
                    assert(chars@ =~= "-inf"@);
                }
            } else {
                assert(chars@.skip(0) == unsigned(chars@));
            }
        }
        if negative {
            if spells(&chars, "-inf") {
                (true, lowest_size)
            } else {
                (true, integer_size(&chars, 1, lowest_size))
            }
        } else {
            if spells(&chars, "inf") {
                (false, highest)
            } else {
                (false, integer_size(&chars, 0, highest))
            }
        }
    }
}

impl From<&FluentNumber> for u8 {
    fn from(number: &FluentNumber) -> (n: u8)
        ensures
            n == saturated(number@.value, 0, u8::MAX as int),
    {
        number.saturating_parts(0, u8::MAX as u128).1 as u8
    }
}

impl FromSpecImpl<&FluentNumber> for u8 {
    open spec fn obeys_from_spec() -> bool {
        true
    }

    open spec fn from_spec(number: &FluentNumber) -> u8 {
        saturated(number@.value, 0, u8::MAX as int) as u8
    }
}

impl From<&FluentNumber> for u16 {
    fn from(number: &FluentNumber) -> (n: u16)
        ensures
            n == saturated(number@.value, 0, u16::MAX as int),
    {
        number.saturating_parts(0, u16::MAX as u128).1 as u16
    }
}

impl FromSpecImpl<&FluentNumber> for u16 {
    open spec fn obeys_from_spec() -> bool {
        true
    }

    open spec fn from_spec(number: &FluentNumber) -> u16 {
        saturated(number@.value, 0, u16::MAX as int) as u16
    }
}

impl From<&FluentNumber> for u32 {
    fn from(number: &FluentNumber) -> (n: u32)
        ensures
            n == saturated(number@.value, 0, u32::MAX as int),
    {
        number.saturating_parts(0, u32::MAX as u128).1 as u32
    }
}

impl FromSpecImpl<&FluentNumber> for u32 {
    open spec fn obeys_from_spec() -> bool {
        true
    }

    open spec fn from_spec(number: &FluentNumber) -> u32 {
        saturated(number@.value, 0, u32::MAX as int) as u32
    }
}

impl From<&FluentNumber> for u64 {
    fn from(number: &FluentNumber) -> (n: u64)
        ensures
            n == saturated(number@.value, 0, u64::MAX as int),
    {
        number.saturating_parts(0, u64::MAX as u128).1 as u64
    }
}

impl FromSpecImpl<&FluentNumber> for u64 {
    open spec fn obeys_from_spec() -> bool {
        true
    }

    open spec fn from_spec(number: &FluentNumber) -> u64 {
        saturated(number@.value, 0, u64::MAX as int) as u64
    }
}

impl From<&FluentNumber> for u128 {
    fn from(number: &FluentNumber) -> (n: u128)
        ensures
            n == saturated(number@.value, 0, u128::MAX as int),
    {
        number.saturating_parts(0, u128::MAX as u128).1 as u128
    }
}

impl FromSpecImpl<&FluentNumber> for u128 {
    open spec fn obeys_from_spec() -> bool {
        true
    }

    open spec fn from_spec(number: &FluentNumber) -> u128 {
        saturated(number@.value, 0, u128::MAX as int) as u128
    }
}

impl From<&FluentNumber> for usize {
    fn from(number: &FluentNumber) -> (n: usize)
        ensures
            n == saturated(number@.value, 0, usize::MAX as int),
    {
        number.saturating_parts(0, usize::MAX as u128).1 as usize
    }
}

impl FromSpecImpl<&FluentNumber> for usize {
    open spec fn obeys_from_spec() -> bool {
        true
    }

    open spec fn from_spec(number: &FluentNumber) -> usize {
        saturated(number@.value, 0, usize::MAX as int) as usize
    }
}

impl From<&FluentNumber> for i8 {
    fn from(number: &FluentNumber) -> (n: i8)
        ensures
            n == saturated(number@.value, i8::MIN as int, i8::MAX as int),
    {
        let highest = i8::MAX as u128;
        let (negative, size) = number.saturating_parts(highest + 1, highest);
        if !negative {
            size as i8
        } else if size > highest {
            i8::MIN
        } else {
            -(size as i8)
        }
    }
}

impl FromSpecImpl<&FluentNumber> for i8 {
    open spec fn obeys_from_spec() -> bool {
        true
    }

    open spec fn from_spec(number: &FluentNumber) -> i8 {
        saturated(number@.value, i8::MIN as int, i8::MAX as int) as i8
    }
}

impl From<&FluentNumber> for i16 {
    fn from(number: &FluentNumber) -> (n: i16)
        ensures
            n == saturated(number@.value, i16::MIN as int, i16::MAX as int),
    {
        let highest = i16::MAX as u128;
        let (negative, size) = number.saturating_parts(highest + 1, highest);
        if !negative {
            size as i16
        } else if size > highest {
            i16::MIN
        } else {
            -(size as i16)
        }
    }
}

impl FromSpecImpl<&FluentNumber> for i16 {
    open spec fn obeys_from_spec() -> bool {
        true
    }

    open spec fn from_spec(number: &FluentNumber) -> i16 {
        saturated(number@.value, i16::MIN as int, i16::MAX as int) as i16
    }
}

impl From<&FluentNumber> for i32 {
    fn from(number: &FluentNumber) -> (n: i32)
        ensures
            n == saturated(number@.value, i32::MIN as int, i32::MAX as int),
    {
        let highest = i32::MAX as u128;
        let (negative, size) = number.saturating_parts(highest + 1, highest);
        if !negative {
            size as i32
        } else if size > highest {
            i32::MIN
        } else {
            -(size as i32)
        }
    }
}

impl FromSpecImpl<&FluentNumber> for i32 {
    open spec fn obeys_from_spec() -> bool {
        true
    }

    open spec fn from_spec(number: &FluentNumber) -> i32 {
        saturated(number@.value, i32::MIN as int, i32::MAX as int) as i32
    }
}

impl From<&FluentNumber> for i64 {
    fn from(number: &FluentNumber) -> (n: i64)
        ensures
            n == saturated(number@.value, i64::MIN as int, i64::MAX as int),
    {
        let highest = i64::MAX as u128;
        let (negative, size) = number.saturating_parts(highest + 1, highest);
        if !negative {
            size as i64
        } else if size > highest {
            i64::MIN
        } else {
            -(size as i64)
        }
    }
}

impl FromSpecImpl<&FluentNumber> for i64 {
    open spec fn obeys_from_spec() -> bool {
        true
    }

    open spec fn from_spec(number: &FluentNumber) -> i64 {
        saturated(number@.value, i64::MIN as int, i64::MAX as int) as i64
    }
}

impl From<&FluentNumber> for i128 {
    fn from(number: &FluentNumber) -> (n: i128)
        ensures
            n == saturated(number@.value, i128::MIN as int, i128::MAX as int),
    {
        let highest = i128::MAX as u128;
        let (negative, size) = number.saturating_parts(highest + 1, highest);
        if !negative {
            size as i128
        } else if size > highest {
            i128::MIN
        } else {
            -(size as i128)
        }
    }
}

impl FromSpecImpl<&FluentNumber> for i128 {
    open spec fn obeys_from_spec() -> bool {
        true
    }

    open spec fn from_spec(number: &FluentNumber) -> i128 {
        saturated(number@.value, i128::MIN as int, i128::MAX as int) as i128
    }
}

impl From<&FluentNumber> for isize {
    fn from(number: &FluentNumber) -> (n: isize)
        ensures
            n == saturated(number@.value, isize::MIN as int, isize::MAX as int),
    {
        let highest = isize::MAX as u128;
        let (negative, size) = number.saturating_parts(highest + 1, highest);
        if !negative {
            size as isize
        } else if size > highest {
            isize::MIN
        } else {
            -(size as isize)
        }
    }
}

impl FromSpecImpl<&FluentNumber> for isize {
    open spec fn obeys_from_spec() -> bool {
        true
    }

    open spec fn from_spec(number: &FluentNumber) -> isize {
        saturated(number@.value, isize::MIN as int, isize::MAX as int) as isize
    }
}

impl From<FluentNumber> for u8 {
    fn from(number: FluentNumber) -> (n: u8)
        ensures
            n == saturated(number@.value, 0, u8::MAX as int),
    {
        number.saturating_parts(0, u8::MAX as u128).1 as u8
    }
}

impl FromSpecImpl<FluentNumber> for u8 {
    open spec fn obeys_from_spec() -> bool {
        true
    }

    open spec fn from_spec(number: FluentNumber) -> u8 {
        saturated(number@.value, 0, u8::MAX as int) as u8
    }
}

impl From<FluentNumber> for u16 {
    fn from(number: FluentNumber) -> (n: u16)
        ensures
            n == saturated(number@.value, 0, u16::MAX as int),
    {
        number.saturating_parts(0, u16::MAX as u128).1 as u16
    }
}

impl FromSpecImpl<FluentNumber> for u16 {
    open spec fn obeys_from_spec() -> bool {
        true
    }

    open spec fn from_spec(number: FluentNumber) -> u16 {
        saturated(number@.value, 0, u16::MAX as int) as u16
    }
}

impl From<FluentNumber> for u32 {
    fn from(number: FluentNumber) -> (n: u32)
        ensures
            n == saturated(number@.value, 0, u32::MAX as int),
    {
        number.saturating_parts(0, u32::MAX as u128).1 as u32
    }
}

impl FromSpecImpl<FluentNumber> for u32 {
    open spec fn obeys_from_spec() -> bool {
        true
    }

    open spec fn from_spec(number: FluentNumber) -> u32 {
        saturated(number@.value, 0, u32::MAX as int) as u32
    }
}

impl From<FluentNumber> for u64 {
    fn from(number: FluentNumber) -> (n: u64)
        ensures
            n == saturated(number@.value, 0, u64::MAX as int),
    {
        number.saturating_parts(0, u64::MAX as u128).1 as u64
    }
}

impl FromSpecImpl<FluentNumber> for u64 {
    open spec fn obeys_from_spec() -> bool {
        true
    }

    open spec fn from_spec(number: FluentNumber) -> u64 {
        saturated(number@.value, 0, u64::MAX as int) as u64
    }
}

impl From<FluentNumber> for u128 {
    fn from(number: FluentNumber) -> (n: u128)
        ensures
            n == saturated(number@.value, 0, u128::MAX as int),
    {
        number.saturating_parts(0, u128::MAX as u128).1 as u128
    }
}

impl FromSpecImpl<FluentNumber> for u128 {
    open spec fn obeys_from_spec() -> bool {
        true
    }

    open spec fn from_spec(number: FluentNumber) -> u128 {
        saturated(number@.value, 0, u128::MAX as int) as u128
    }
}

impl From<FluentNumber> for usize {
    fn from(number: FluentNumber) -> (n: usize)
        ensures
            n == saturated(number@.value, 0, usize::MAX as int),
    {
        number.saturating_parts(0, usize::MAX as u128).1 as usize
    }
}

impl FromSpecImpl<FluentNumber> for usize {
    open spec fn obeys_from_spec() -> bool {
        true
    }

    open spec fn from_spec(number: FluentNumber) -> usize {
        saturated(number@.value, 0, usize::MAX as int) as usize
    }
}

impl From<FluentNumber> for i8 {
    fn from(number: FluentNumber) -> (n: i8)
        ensures
            n == saturated(number@.value, i8::MIN as int, i8::MAX as int),
    {
        let highest = i8::MAX as u128;
        let (negative, size) = number.saturating_parts(highest + 1, highest);
        if !negative {
            size as i8
        } else if size > highest {
            i8::MIN
        } else {
            -(size as i8)
        }
    }
}

impl FromSpecImpl<FluentNumber> for i8 {
    open spec fn obeys_from_spec() -> bool {
        true
    }

    open spec fn from_spec(number: FluentNumber) -> i8 {
        saturated(number@.value, i8::MIN as int, i8::MAX as int) as i8
    }
}

impl From<FluentNumber> for i16 {
    fn from(number: FluentNumber) -> (n: i16)
        ensures
            n == saturated(number@.value, i16::MIN as int, i16::MAX as int),
    {
        let highest = i16::MAX as u128;
        let (negative, size) = number.saturating_parts(highest + 1, highest);
        if !negative {
            size as i16
        } else if size > highest {
            i16::MIN
        } else {
            -(size as i16)
        }
    }
}

impl FromSpecImpl<FluentNumber> for i16 {
    open spec fn obeys_from_spec() -> bool {
        true
    }

    open spec fn from_spec(number: FluentNumber) -> i16 {
        saturated(number@.value, i16::MIN as int, i16::MAX as int) as i16
    }
}

impl From<FluentNumber> for i32 {
    fn from(number: FluentNumber) -> (n: i32)
        ensures
            n == saturated(number@.value, i32::MIN as int, i32::MAX as int),
    {
        let highest = i32::MAX as u128;
        let (negative, size) = number.saturating_parts(highest + 1, highest);
        if !negative {
            size as i32
        } else if size > highest {
            i32::MIN
        } else {
            -(size as i32)
        }
    }
}

impl FromSpecImpl<FluentNumber> for i32 {
    open spec fn obeys_from_spec() -> bool {
        true
    }

    open spec fn from_spec(number: FluentNumber) -> i32 {
        saturated(number@.value, i32::MIN as int, i32::MAX as int) as i32
    }
}

impl From<FluentNumber> for i64 {
    fn from(number: FluentNumber) -> (n: i64)
        ensures
            n == saturated(number@.value, i64::MIN as int, i64::MAX as int),
    {
        let highest = i64::MAX as u128;
        let (negative, size) = number.saturating_parts(highest + 1, highest);
        if !negative {
            size as i64
        } else if size > highest {
            i64::MIN
        } else {
            -(size as i64)
        }
    }
}

impl FromSpecImpl<FluentNumber> for i64 {
    open spec fn obeys_from_spec() -> bool {
        true
    }

    open spec fn from_spec(number: FluentNumber) -> i64 {
        saturated(number@.value, i64::MIN as int, i64::MAX as int) as i64
    }
}

impl From<FluentNumber> for i128 {
    fn from(number: FluentNumber) -> (n: i128)
        ensures
            n == saturated(number@.value, i128::MIN as int, i128::MAX as int),
    {
        let highest = i128::MAX as u128;
        let (negative, size) = number.saturating_parts(highest + 1, highest);
        if !negative {
            size as i128
        } else if size > highest {
            i128::MIN
        } else {
            -(size as i128)
        }
    }
}

impl FromSpecImpl<FluentNumber> for i128 {
    open spec fn obeys_from_spec() -> bool {
        true
    }

    open spec fn from_spec(number: FluentNumber) -> i128 {
        saturated(number@.value, i128::MIN as int, i128::MAX as int) as i128
    }
}

impl From<FluentNumber> for isize {
    fn from(number: FluentNumber) -> (n: isize)
        ensures
            n == saturated(number@.value, isize::MIN as int, isize::MAX as int),
    {
        let highest = isize::MAX as u128;
        let (negative, size) = number.saturating_parts(highest + 1, highest);
        if !negative {
            size as isize
        } else if size > highest {
            isize::MIN
        } else {
            -(size as isize)
        }
    }
}

impl FromSpecImpl<FluentNumber> for isize {
    open spec fn obeys_from_spec() -> bool {
        true
    }

    open spec fn from_spec(number: FluentNumber) -> isize {
        saturated(number@.value, isize::MIN as int, isize::MAX as int) as isize
    }
}

} // verus!
