//! From the primitive integer types to a number.
//!
//! The integer types of at most 32 bits are here: each of their values is a
//! value of a 64-bit float, so the number renders as the integer is written.
//! Wider integers may round on their way into a float, which this crate, free
//! of floating point, leaves to its callers.

use vstd::prelude::*;
use vstd::std_specs::convert::FromSpecImpl;

use crate::number::{is_rendering, rendered, unsigned, FluentNumber, NumberView};
use crate::options::{FluentNumberOptions, OptionsView};
use crate::text::{decimal_value, is_digit, lemma_digit_prefix_ends, zeros};

verus! {

/// The decimal digit that stands for `d`.
pub open spec fn digit_char(d: nat) -> char
    recommends
        d < 10,
{
    ('0' as nat + d) as char
}

/// The decimal digits of `n`, most significant first and without leading
/// zeros; the single digit `0` for zero.
pub open spec fn natural_text(n: nat) -> Seq<char>
    decreases n,
{
    if n < 10 {
        seq![digit_char(n)]
    } else {
        natural_text(n / 10).push(digit_char(n % 10))
    }
}

/// The decimal text of the integer `n`: its digits, after a `-` where `n` is
/// below zero.
pub open spec fn integer_text(n: int) -> Seq<char> {
    if n < 0 {
        seq!['-'] + natural_text((-n) as nat)
    } else {
        natural_text(n as nat)
    }
}

/// The decimal digits of a natural number are digits, at least one, and
/// write that number.
pub proof fn lemma_natural_text(n: nat)
    ensures
        natural_text(n).len() > 0,
        forall|i: int| 0 <= i < natural_text(n).len() ==> is_digit(#[trigger] natural_text(n)[i]),
        decimal_value(natural_text(n)) == n,
    decreases n,
{
    if n < 10 {
        let text = natural_text(n);
        assert(text.drop_last() =~= Seq::<char>::empty());
        assert(decimal_value(text.drop_last()) == 0);
        assert(text.last() == digit_char(n));
    } else {
        lemma_natural_text(n / 10);
        let text = natural_text(n);
        assert(text.drop_last() == natural_text(n / 10));
        assert(text.last() == digit_char(n % 10));
    }
}

/// The decimal text of an integer has the form in which a number is held.
pub proof fn lemma_integer_text_is_rendering(n: int)
    ensures
        is_rendering(integer_text(n)),
{
    let text = integer_text(n);
    let size: nat = if n < 0 {
        (-n) as nat
    } else {
        n as nat
    };
    let digits = natural_text(size);
    lemma_natural_text(size);
    assert(is_digit(digits[0]));
    assert(unsigned(text) == digits);
    lemma_digit_prefix_ends(digits, digits.len());
}

/// A number made from an integer displays as that integer is written in
/// decimal. Under a minimum count of fraction digits, a `'.'` and that many
/// zeros follow.
pub proof fn lemma_integer_displays_as_written(n: int, minimum: nat)
    ensures
        rendered(integer_text(n), OptionsView::initial().minimum_fraction_digits) == integer_text(n),
        rendered(integer_text(n), Some(minimum)) == integer_text(n) + seq!['.'] + zeros(minimum),
{
    let text = integer_text(n);
    lemma_natural_text(
        if n < 0 {
            (-n) as nat
        } else {
            n as nat
        },
    );
    text.index_of_first_ensures('.');
    if text.contains('.') {
        let at = choose|at: int| 0 <= at < text.len() && text[at] == '.';
        if n < 0 && at > 0 {
            assert(text[at] == natural_text((-n) as nat)[at - 1]);
        }
    }
}

/// The text of one decimal digit.
fn digit_str(d: u64) -> (s: &'static str)
    requires
        d < 10,
    ensures
        s@ == seq![digit_char(d as nat)],
{
    proof {
        reveal_strlit("0");
        reveal_strlit("1");
        reveal_strlit("2");
        reveal_strlit("3");
        reveal_strlit("4");
        reveal_strlit("5");
        reveal_strlit("6");
        reveal_strlit("7");
        reveal_strlit("8");
        reveal_strlit("9");
    }
    let s = if d == 0 {
        "0"
    } else if d == 1 {
        "1"
    } else if d == 2 {
        "2"
    } else if d == 3 {
        "3"
    } else if d == 4 {
        "4"
    } else if d == 5 {
        "5"
    } else if d == 6 {
        "6"
    } else if d == 7 {
        "7"
    } else if d == 8 {
        "8"
    } else {
        "9"
    };
    assert(s@.len() == 1);
    assert(s@ =~= seq![digit_char(d as nat)]);
    s
}

/// Appends the decimal digits of `n` to `text`.
fn append_natural(text: &mut String, n: u64)
    ensures
        final(text)@ == old(text)@ + natural_text(n as nat),
    decreases n,
{
    if n >= 10 {
        append_natural(text, n / 10);
    }
    text.append(digit_str(n % 10));
    assert(text@ == old(text)@ + natural_text(n as nat));
}

/// The number that the integer `n` is, with the initial options.
fn integer_number(n: i64) -> (number: FluentNumber)
    ensures
        number@ == (NumberView { value: integer_text(n as int), options: OptionsView::initial() }),
        number.is_well_formed(),
{
    proof {
        lemma_integer_text_is_rendering(n as int);
    }
    let mut value = String::new();
    if n < 0 {
        proof {
            reveal_strlit("-");
            assert("-"@ =~= seq!['-']);
        }
        value.append("-");
        append_natural(&mut value, (-(n + 1)) as u64 + 1);
    } else {
        append_natural(&mut value, n as u64);
    }
    assert(value@ == integer_text(n as int));
    FluentNumber { value, options: FluentNumberOptions::default() }
}

impl From<i8> for FluentNumber {
    fn from(n: i8) -> (number: FluentNumber)
        ensures
            number@ == (NumberView { value: integer_text(n as int), options: OptionsView::initial() }),
            number.is_well_formed(),
    {
        integer_number(n as i64)
    }
}

impl FromSpecImpl<i8> for FluentNumber {
    /// The outcome is stated by its view, on `from` itself: two texts of the
    /// same characters need not be one value.
    open spec fn obeys_from_spec() -> bool {
        false
    }

    open spec fn from_spec(n: i8) -> FluentNumber {
        arbitrary()
    }
}

impl From<&i8> for FluentNumber {
    fn from(n: &i8) -> (number: FluentNumber)
        ensures
            number@ == (NumberView { value: integer_text(*n as int), options: OptionsView::initial() }),
            number.is_well_formed(),
    {
        integer_number(*n as i64)
    }
}

impl FromSpecImpl<&i8> for FluentNumber {
    /// The outcome is stated by its view, on `from` itself: two texts of the
    /// same characters need not be one value.
    open spec fn obeys_from_spec() -> bool {
        false
    }

    open spec fn from_spec(n: &i8) -> FluentNumber {
        arbitrary()
    }
}

impl From<i16> for FluentNumber {
    fn from(n: i16) -> (number: FluentNumber)
        ensures
            number@ == (NumberView { value: integer_text(n as int), options: OptionsView::initial() }),
            number.is_well_formed(),
    {
        integer_number(n as i64)
    }
}

impl FromSpecImpl<i16> for FluentNumber {
    /// The outcome is stated by its view, on `from` itself: two texts of the
    /// same characters need not be one value.
    open spec fn obeys_from_spec() -> bool {
        false
    }

    open spec fn from_spec(n: i16) -> FluentNumber {
        arbitrary()
    }
}

impl From<&i16> for FluentNumber {
    fn from(n: &i16) -> (number: FluentNumber)
        ensures
            number@ == (NumberView { value: integer_text(*n as int), options: OptionsView::initial() }),
            number.is_well_formed(),
    {
        integer_number(*n as i64)
    }
}

impl FromSpecImpl<&i16> for FluentNumber {
    /// The outcome is stated by its view, on `from` itself: two texts of the
    /// same characters need not be one value.
    open spec fn obeys_from_spec() -> bool {
        false
    }

    open spec fn from_spec(n: &i16) -> FluentNumber {
        arbitrary()
    }
}

impl From<i32> for FluentNumber {
    fn from(n: i32) -> (number: FluentNumber)
        ensures
            number@ == (NumberView { value: integer_text(n as int), options: OptionsView::initial() }),
            number.is_well_formed(),
    {
        integer_number(n as i64)
    }
}

impl FromSpecImpl<i32> for FluentNumber {
    /// The outcome is stated by its view, on `from` itself: two texts of the
    /// same characters need not be one value.
    open spec fn obeys_from_spec() -> bool {
        false
    }

    open spec fn from_spec(n: i32) -> FluentNumber {
        arbitrary()
    }
}

impl From<&i32> for FluentNumber {
    fn from(n: &i32) -> (number: FluentNumber)
        ensures
            number@ == (NumberView { value: integer_text(*n as int), options: OptionsView::initial() }),
            number.is_well_formed(),
    {
        integer_number(*n as i64)
    }
}

impl FromSpecImpl<&i32> for FluentNumber {
    /// The outcome is stated by its view, on `from` itself: two texts of the
    /// same characters need not be one value.
    open spec fn obeys_from_spec() -> bool {
        false
    }

    open spec fn from_spec(n: &i32) -> FluentNumber {
        arbitrary()
    }
}

impl From<u8> for FluentNumber {
    fn from(n: u8) -> (number: FluentNumber)
        ensures
            number@ == (NumberView { value: integer_text(n as int), options: OptionsView::initial() }),
            number.is_well_formed(),
    {
        integer_number(n as i64)
    }
}

impl FromSpecImpl<u8> for FluentNumber {
    /// The outcome is stated by its view, on `from` itself: two texts of the
    /// same characters need not be one value.
    open spec fn obeys_from_spec() -> bool {
        false
    }

    open spec fn from_spec(n: u8) -> FluentNumber {
        arbitrary()
    }
}

impl From<&u8> for FluentNumber {
    fn from(n: &u8) -> (number: FluentNumber)
        ensures
            number@ == (NumberView { value: integer_text(*n as int), options: OptionsView::initial() }),
            number.is_well_formed(),
    {
        integer_number(*n as i64)
    }
}

impl FromSpecImpl<&u8> for FluentNumber {
    /// The outcome is stated by its view, on `from` itself: two texts of the
    /// same characters need not be one value.
    open spec fn obeys_from_spec() -> bool {
        false
    }

    open spec fn from_spec(n: &u8) -> FluentNumber {
        arbitrary()
    }
}

impl From<u16> for FluentNumber {
    fn from(n: u16) -> (number: FluentNumber)
        ensures
            number@ == (NumberView { value: integer_text(n as int), options: OptionsView::initial() }),
            number.is_well_formed(),
    {
        integer_number(n as i64)
    }
}

impl FromSpecImpl<u16> for FluentNumber {
    /// The outcome is stated by its view, on `from` itself: two texts of the
    /// same characters need not be one value.
    open spec fn obeys_from_spec() -> bool {
        false
    }

    open spec fn from_spec(n: u16) -> FluentNumber {
        arbitrary()
    }
}

impl From<&u16> for FluentNumber {
    fn from(n: &u16) -> (number: FluentNumber)
        ensures
            number@ == (NumberView { value: integer_text(*n as int), options: OptionsView::initial() }),
            number.is_well_formed(),
    {
        integer_number(*n as i64)
    }
}

impl FromSpecImpl<&u16> for FluentNumber {
    /// The outcome is stated by its view, on `from` itself: two texts of the
    /// same characters need not be one value.
    open spec fn obeys_from_spec() -> bool {
        false
    }

    open spec fn from_spec(n: &u16) -> FluentNumber {
        arbitrary()
    }
}

impl From<u32> for FluentNumber {
    fn from(n: u32) -> (number: FluentNumber)
        ensures
            number@ == (NumberView { value: integer_text(n as int), options: OptionsView::initial() }),
            number.is_well_formed(),
    {
        integer_number(n as i64)
    }
}

impl FromSpecImpl<u32> for FluentNumber {
    /// The outcome is stated by its view, on `from` itself: two texts of the
    /// same characters need not be one value.
    open spec fn obeys_from_spec() -> bool {
        false
    }

    open spec fn from_spec(n: u32) -> FluentNumber {
        arbitrary()
    }
}

impl From<&u32> for FluentNumber {
    fn from(n: &u32) -> (number: FluentNumber)
        ensures
            number@ == (NumberView { value: integer_text(*n as int), options: OptionsView::initial() }),
            number.is_well_formed(),
    {
        integer_number(*n as i64)
    }
}

impl FromSpecImpl<&u32> for FluentNumber {
    /// The outcome is stated by its view, on `from` itself: two texts of the
    /// same characters need not be one value.
    open spec fn obeys_from_spec() -> bool {
        false
    }

    open spec fn from_spec(n: &u32) -> FluentNumber {
        arbitrary()
    }
}

} // verus!
