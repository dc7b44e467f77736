//! A number together with the options that style it.

use vstd::prelude::*;
use vstd::std_specs::cmp::PartialEqSpecImpl;

use crate::options::{count_view, FluentNumberOptions, OptionsView};
use crate::text::{
    append_zeros, chars_of, digit_prefix_len, first_point, fraction_digit_count, fraction_len,
    is_digit,
    lemma_digit_prefix_ends, lemma_digit_prefix_len, lemma_first_point_of_extension, spells,
    zeros,
};

verus! {

/// What a [`FluentNumber`] holds, as plain mathematical values.
pub struct NumberView {
    pub value: Seq<char>,
    pub options: OptionsView,
}

/// A number and its options. The number is held by its shortest decimal
/// rendering: an optional `-`, the integer digits and, where the number has a
/// fraction, a `.` and the fraction digits; `NaN`, `inf` and `-inf` stand for
/// the values that are no finite number.
#[derive(Debug, Clone)]
pub struct FluentNumber {
    pub value: String,
    pub options: FluentNumberOptions,
}

impl View for FluentNumber {
    type V = NumberView;

    open spec fn view(&self) -> NumberView {
        NumberView { value: self.value@, options: self.options@ }
    }
}

/// Whether `value` renders a number below zero, or a zero with a minus sign.
pub open spec fn is_negative(value: Seq<char>) -> bool {
    value.len() > 0 && value[0] == '-'
}

/// `value` without its sign.
pub open spec fn unsigned(value: Seq<char>) -> Seq<char> {
    if is_negative(value) {
        value.drop_first()
    } else {
        value
    }
}

/// Whether `value` renders one of the two infinities.
pub open spec fn is_infinite(value: Seq<char>) -> bool {
    unsigned(value) == "inf"@
}

/// Whether `value` renders a finite number: anything but `NaN` and the two
/// infinities.
pub open spec fn is_finite(value: Seq<char>) -> bool {
    value != "NaN"@ && value != "inf"@ && value != "-inf"@
}

/// Whether `s` is a decimal numeral without a sign: one digit or more, and
/// where anything follows them, a `'.'` and again one digit or more.
pub open spec fn is_numeral(s: Seq<char>) -> bool {
    let whole = digit_prefix_len(s) as int;
    &&& whole > 0
    &&& whole < s.len() ==> {
        &&& s[whole] == '.'
        &&& whole + 1 < s.len()
        &&& forall|i: int| whole < i < s.len() ==> is_digit(#[trigger] s[i])
    }
}

/// Whether `value` has the form in which a number is held: `NaN`, `inf`,
/// `-inf`, or a decimal numeral after at most one `-`.
pub open spec fn is_rendering(value: Seq<char>) -> bool {
    !is_finite(value) || is_numeral(unsigned(value))
}

/// Whether `value` renders zero, with or without a minus sign.
pub open spec fn is_zero(value: Seq<char>) -> bool {
    value == "0"@ || value == "-0"@
}

/// Whether the numbers rendered as `left` and `right` are equal as numbers:
/// the two zeros equal each other, `NaN` equals nothing, itself included, and
/// any other number equals the one that renders as it does.
pub open spec fn same_number(left: Seq<char>, right: Seq<char>) -> bool {
    left != "NaN"@ && right != "NaN"@ && (left == right || (is_zero(left) && is_zero(right)))
}

impl PartialEq for FluentNumber {
    fn eq(&self, other: &Self) -> (same: bool) {
        let mine = chars_of(self.value.as_str());
        let theirs = chars_of(other.value.as_str());
        if spells(&mine, "NaN") || spells(&theirs, "NaN") {
            return false;
        }
        let both_zero = (spells(&mine, "0") || spells(&mine, "-0")) && (spells(&theirs, "0")
            || spells(&theirs, "-0"));
        (both_zero || self.value == other.value) && self.options == other.options
    }
}

impl PartialEqSpecImpl for FluentNumber {
    open spec fn obeys_eq_spec() -> bool {
        true
    }

    open spec fn eq_spec(&self, other: &Self) -> bool {
        same_number(self.value@, other.value@) && self.options@ == other.options@
    }
}

/// The display text of a number rendered as `value` under a minimum count of
/// fraction digits: `value` itself where no minimum is set, else `value`
/// followed by as many zeros as its fraction lacks, after a `.` where `value`
/// had none. Nothing of `value` is ever taken away.
pub open spec fn rendered(value: Seq<char>, minimum_fraction_digits: Option<nat>) -> Seq<char> {
    match minimum_fraction_digits {
        None => value,
        Some(minimum) => match fraction_len(value) {
            Some(present) => value + zeros(
                if present >= minimum {
                    0
                } else {
                    (minimum - present) as nat
                },
            ),
            None => value + seq!['.'] + zeros(minimum),
        },
    }
}

/// Display under a minimum count of fraction digits takes nothing away and
/// shows at least that many: the display text starts with all of `value`; it
/// holds a `'.'`, with `minimum` characters after the first one or as many as
/// `value` had there, whichever is more; and all that it adds to `value` are
/// zeros, after a `'.'` where `value` had none.
pub proof fn lemma_rendered_pads(value: Seq<char>, minimum: nat)
    ensures
        value.is_prefix_of(rendered(value, Some(minimum))),
        fraction_len(rendered(value, Some(minimum))) matches Some(shown) && shown >= minimum && (
        match fraction_len(value) {
            Some(present) => shown == if present >= minimum {
                present
            } else {
                minimum
            },
            None => shown == minimum && rendered(value, Some(minimum))[value.len() as int] == '.',
        }),
        forall|i: int|
            value.len() + (if fraction_len(value) is None {
                1int
            } else {
                0int
            }) <= i < rendered(value, Some(minimum)).len() ==> #[trigger] rendered(
                value,
                Some(minimum),
            )[i] == '0',
{
    let text = rendered(value, Some(minimum));
    value.index_of_first_ensures('.');
    match fraction_len(value) {
        Some(present) => {
            let missing: nat = if present >= minimum {
                0
            } else {
                (minimum - present) as nat
            };
            lemma_first_point_of_extension(value, zeros(missing));
            assert(text.len() == value.len() + missing);
        },
        None => {
            let tail = seq!['.'] + zeros(minimum);
            assert(text =~= value + tail);
            assert(tail[0] == '.');
            lemma_first_point_of_extension(value, tail);
            assert(text.len() == value.len() + 1 + minimum);
        },
    }
}

/// Where a rendering holds a `'.'`, it is the one that ends the integer
/// digits, and only digits follow it.
pub proof fn lemma_fraction_of_rendering(value: Seq<char>)
    requires
        is_rendering(value),
    ensures
        value.index_of_first('.') matches Some(at) ==> forall|i: int|
            at < i < value.len() ==> is_digit(#[trigger] value[i]),
{
    reveal_strlit("NaN");
    reveal_strlit("inf");
    reveal_strlit("-inf");
    value.index_of_first_ensures('.');
    if value.index_of_first('.') is Some {
        let at = value.index_of_first('.').unwrap();
        if !is_finite(value) {
            assert(value.len() <= 4);
            assert(value[at] != '.');
        } else {
            let rest = unsigned(value);
            let sign: int = if is_negative(value) {
                1
            } else {
                0
            };
            let whole = digit_prefix_len(rest) as int;
            lemma_digit_prefix_len(rest);
            assert(forall|i: int| 0 <= i < rest.len() ==> rest[i] == value[i + sign]);
            if at >= sign {
                assert(rest[at - sign] == '.');
                if at - sign < whole {
                    assert(is_digit(rest[at - sign]));
                }
                if at - sign > whole {
                    assert(value[whole + sign] == rest[whole]);
                }
                assert(at - sign == whole);
                assert forall|i: int| at < i < value.len() implies is_digit(
                    #[trigger] value[i],
                ) by {
                    assert(value[i] == rest[i - sign]);
                }
            }
        }
    }
}

/// Display under a minimum count of fraction digits shows digits after the
/// `'.'`, at least as many as the minimum: in the display text of a rendering,
/// every character after the first `'.'` is a digit.
pub proof fn lemma_rendered_shows_digits(value: Seq<char>, minimum: nat)
    requires
        is_rendering(value),
    ensures
        rendered(value, Some(minimum)).index_of_first('.') matches Some(at) && rendered(
            value,
            Some(minimum),
        ).len() - at - 1 >= minimum && forall|i: int|
            at < i < rendered(value, Some(minimum)).len() ==> is_digit(
                #[trigger] rendered(value, Some(minimum))[i],
            ),
{
    let text = rendered(value, Some(minimum));
    lemma_rendered_pads(value, minimum);
    lemma_fraction_of_rendering(value);
    text.index_of_first_ensures('.');
    value.index_of_first_ensures('.');
    let at = text.index_of_first('.').unwrap();
    match fraction_len(value) {
        Some(present) => {
            let missing: nat = if present >= minimum {
                0
            } else {
                (minimum - present) as nat
            };
            lemma_first_point_of_extension(value, zeros(missing));
            assert forall|i: int| at < i < text.len() implies is_digit(#[trigger] text[i]) by {
                if i < value.len() {
                    assert(text[i] == value[i]);
                }
            }
        },
        None => {
            assert(at == value.len());
        },
    }
}

/// The text that was to be read as a number is no decimal numeral.
#[derive(Debug, Clone, Copy, PartialEq, Eq)]
pub struct ParseError;

/// How many fraction digits the literal `input` writes: the decimal digits
/// that stand right after its first `'.'`, zeros at their end included. What
/// follows the digits, such as an exponent, is not counted. `None` where
/// `input` holds no `'.'`.
pub fn fraction_digits(input: &str) -> (count: Option<usize>)
    ensures
        count_view(count) == fraction_digit_count(input@),
{
    let chars = chars_of(input);
    match first_point(&chars) {
        Some(at) => {
            let start = at + 1;
            let ghost rest = chars@.skip(start as int);
            let mut end = start;
            while end < chars.len() && chars[end] >= '0' && chars[end] <= '9'
                invariant
                    start <= end <= chars.len(),
                    rest == chars@.skip(start as int),
                    forall|j: int| 0 <= j < end - start ==> is_digit(#[trigger] rest[j]),
                decreases chars.len() - end,
            {
                end = end + 1;
            }
            proof {
                lemma_digit_prefix_ends(rest, (end - start) as nat);
            }
            Some(end - start)
        },
        None => None,
    }
}

impl FluentNumber {
    /// Whether the value has the form in which a number is held.
    pub open spec fn is_well_formed(&self) -> bool {
        is_rendering(self@.value)
    }

    /// Tests whether the value has the form in which a number is held.
    pub fn has_rendering(&self) -> (well_formed: bool)
        ensures
            well_formed == self.is_well_formed(),
    {
        let chars = chars_of(self.value.as_str());
        if spells(&chars, "NaN") || spells(&chars, "inf") || spells(&chars, "-inf") {
            return true;
        }
        let start: usize = if chars.len() > 0 && chars[0] == '-' {
            1
        } else {
            0
        };
        let ghost rest = unsigned(chars@);
        assert(rest == chars@.skip(start as int));
        let mut end = start;
        while end < chars.len() && chars[end] >= '0' && chars[end] <= '9'
            invariant
                start <= end <= chars.len(),
                rest == chars@.skip(start as int),
                forall|j: int| 0 <= j < end - start ==> is_digit(#[trigger] rest[j]),
            decreases chars.len() - end,
        {
            end = end + 1;
        }
        proof {
            lemma_digit_prefix_ends(rest, (end - start) as nat);
        }
        if end == start {
            return false;
        }
        if end == chars.len() {
            return true;
        }
        if chars[end] != '.' || end + 1 == chars.len() {
            return false;
        }
        let mut at = end + 1;
        while at < chars.len()
            invariant
                start < end < at <= chars.len(),
                chars@ == self.value@,
                is_finite(chars@),
                rest == unsigned(chars@),
                rest == chars@.skip(start as int),
                digit_prefix_len(rest) == end - start,
                forall|j: int| end - start < j < at - start ==> is_digit(#[trigger] rest[j]),
            decreases chars.len() - at,
        {
            if !(chars[at] >= '0' && chars[at] <= '9') {
                assert(!is_digit(rest[at - start]));
                return false;
            }
            at = at + 1;
        }
        true
    }

    /// Pairs a rendered value with its options.
    pub fn new(value: String, options: FluentNumberOptions) -> (number: Self)
        ensures
            number.value == value,
            number.options == options,
    {
        FluentNumber { value, options }
    }

    /// The number that the literal `input` writes, where reading `input` as a
    /// decimal numeral gave the value rendered as `parsed`, or gave none. The
    /// number keeps as its minimum of fraction digits the count of the digits
    /// that `input` writes right after its `'.'`, so that zeros written at
    /// their end are displayed again; its other options are the initial ones.
    pub fn from_parsed(parsed: Option<String>, input: &str) -> (outcome: Result<
        FluentNumber,
        ParseError,
    >)
        ensures
            parsed is None ==> outcome == Err::<FluentNumber, ParseError>(ParseError),
            parsed matches Some(value) ==> outcome matches Ok(number) && number@ == (NumberView {
                value: value@,
                options: OptionsView {
                    minimum_fraction_digits: fraction_digit_count(input@),
                    ..OptionsView::initial()
                },
            }),
    {
        match parsed {
            Some(value) => {
                let mut options = FluentNumberOptions::default();
                options.minimum_fraction_digits = fraction_digits(input);
                Ok(FluentNumber { value, options })
            },
            None => Err(ParseError),
        }
    }

    /// The text that displays this number.
    pub fn as_string(&self) -> (text: String)
        ensures
            text@ == rendered(self@.value, self@.options.minimum_fraction_digits),
    {
        let mut text = self.value.clone();
        if let Some(minimum) = self.options.minimum_fraction_digits {
            let chars = chars_of(self.value.as_str());
            match first_point(&chars) {
                Some(at) => {
                    let present = chars.len() - at - 1;
                    let missing = if present > minimum {
                        0
                    } else {
                        minimum - present
                    };
                    append_zeros(&mut text, missing);
                },
                None => {
                    proof {
                        reveal_strlit(".");
                        assert("."@ == seq!['.']);
                    }
                    text.append(".");
                    append_zeros(&mut text, minimum);
                },
            }
        }
        text
    }
}

} // verus!
