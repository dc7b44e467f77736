//! The plural operands of a number: the six quantities by which plural rules
//! tell the categories of a numeral apart.

use vstd::arithmetic::power::{lemma_pow0, lemma_pow_increases, pow};
use vstd::prelude::*;

use crate::from_integer::{
    integer_text, lemma_integer_displays_as_written, lemma_integer_text_is_rendering,
    lemma_natural_text, natural_text,
};
use crate::number::{is_finite, is_numeral, unsigned, FluentNumber};
use crate::options::count_view;
use crate::text::{chars_of, decimal_value, is_digit, spells};

verus! {

/// What a [`PluralOperands`] holds, as plain mathematical values.
pub struct OperandsView {
    pub n: Seq<char>,
    pub i: nat,
    pub v: nat,
    pub w: nat,
    pub f: nat,
    pub t: nat,
}

/// The plural operands of a numeral.
#[derive(Debug, Clone, PartialEq, Eq)]
pub struct PluralOperands {
    /// The absolute value, by its rendering.
    pub n: String,
    /// The integer part.
    pub i: u64,
    /// How many fraction digits are visible, trailing zeros included.
    pub v: usize,
    /// How many fraction digits are visible, trailing zeros left out.
    pub w: usize,
    /// The visible fraction digits, trailing zeros included, read as an integer.
    pub f: u64,
    /// The visible fraction digits, trailing zeros left out, read as an integer.
    pub t: u64,
}

impl View for PluralOperands {
    type V = OperandsView;

    open spec fn view(&self) -> OperandsView {
        OperandsView {
            n: self.n@,
            i: self.i as nat,
            v: self.v as nat,
            w: self.w as nat,
            f: self.f as nat,
            t: self.t as nat,
        }
    }
}

/// Why a number has no plural operands.
#[derive(Debug, Clone, Copy, PartialEq, Eq)]
pub enum OperandDerivationError {
    /// The number is not finite: it is `NaN` or an infinity.
    NotFinite,
    /// No operands can be read off the value: it is no decimal numeral after
    /// at most one `-`, or its integer part or its fraction digits are more
    /// than 64 bits hold.
    Unreadable,
    /// The fraction digits, padded to the minimum that the options ask for, are
    /// more than the operand `f` can hold.
    FractionOverflow,
}

/// The five operands that are read off the digits of a numeral, as plain
/// mathematical values.
pub struct DigitOperands {
    pub i: nat,
    pub v: nat,
    pub w: nat,
    pub f: nat,
    pub t: nat,
}

/// `digits` without the zeros at its end.
pub open spec fn without_trailing_zeros(digits: Seq<char>) -> Seq<char>
    decreases digits.len(),
{
    if digits.len() > 0 && digits.last() == '0' {
        without_trailing_zeros(digits.drop_last())
    } else {
        digits
    }
}

/// The integer and fraction operands that `intl_pluralrules` reads from the
/// text `text`; `None` where it reads none.
pub uninterp spec fn cldr_operands(text: Seq<char>) -> Option<DigitOperands>;

/// The integer and fraction operands of the decimal numeral `value`, which
/// may bear a `-`.
///
/// With a `'.'`, the integer part stands before it and the visible fraction
/// digits after it, and there are operands only where both, read as integers,
/// fit into 64 bits. Without one, no fraction digits are visible, and the
/// integer part is the numeral itself as far as a float holds that exactly,
/// which is up to 2^53; beyond that it is what [`cldr_operands`] names.
pub open spec fn numeral_operands(value: Seq<char>) -> Option<DigitOperands>
    recommends
        is_numeral(unsigned(value)),
{
    let numeral = unsigned(value);
    match numeral.index_of_first('.') {
        Some(at) => {
            let whole = numeral.take(at);
            let fraction = numeral.skip(at + 1);
            let kept = without_trailing_zeros(fraction);
            if decimal_value(whole) <= u64::MAX && decimal_value(fraction) <= u64::MAX {
                Some(
                    DigitOperands {
                        i: decimal_value(whole),
                        v: fraction.len(),
                        w: kept.len(),
                        f: decimal_value(fraction),
                        t: decimal_value(kept),
                    },
                )
            } else {
                None
            }
        },
        None => Some(
            DigitOperands {
                i: if decimal_value(numeral) <= 0x20_0000_0000_0000 {
                    decimal_value(numeral)
                } else {
                    match cldr_operands(value) {
                        Some(read) => read.i,
                        None => 0,
                    }
                },
                v: 0,
                w: 0,
                f: 0,
                t: 0,
            },
        ),
    }
}

/// What was read, as plain mathematical values.
pub open spec fn read_view(read: Option<(u64, usize, usize, u64, u64)>) -> Option<DigitOperands> {
    match read {
        Some((i, v, w, f, t)) => Some(
            DigitOperands { i: i as nat, v: v as nat, w: w as nat, f: f as nat, t: t as nat },
        ),
        None => None,
    }
}

/// Calls `PluralOperands::try_from` of `intl_pluralrules` on `text` and hands
/// back the operands `i`, `v`, `w`, `f` and `t` that it gives, in this order.
///
/// Assumed of it: that what it gives depends on the characters of `text`
/// alone, so that [`cldr_operands`] names it; and that from a decimal numeral
/// after at most one `-` it reads what [`numeral_operands`] says. There it
/// reads the integer part and the fraction digits by `u64::from_str`, takes
/// the two counts as lengths of the fraction, and, where the numeral has no
/// `'.'`, casts the float that the numeral parses to into the integer part.
#[verifier::external_body]
fn read_operands(text: &str) -> (read: Option<(u64, usize, usize, u64, u64)>)
    ensures
        read_view(read) == cldr_operands(text@),
        is_numeral(unsigned(text@)) ==> read_view(read) == numeral_operands(text@),
{
    match intl_pluralrules::operands::PluralOperands::try_from(text) {
        Ok(operands) => Some((operands.i, operands.v, operands.w, operands.f, operands.t)),
        Err(_) => None,
    }
}

/// The operands of the number rendered as `value` before any option is
/// looked at: `n` is the rendering without its sign, the others are read off
/// its digits. There are none where `value` is no decimal numeral after at
/// most one `-`, or where its digits are more than 64 bits hold.
pub open spec fn baseline(value: Seq<char>) -> Option<OperandsView> {
    if is_numeral(unsigned(value)) {
        match numeral_operands(value) {
            Some(digits) => Some(
                OperandsView {
                    n: unsigned(value),
                    i: digits.i,
                    v: digits.v,
                    w: digits.w,
                    f: digits.f,
                    t: digits.t,
                },
            ),
            None => None,
        }
    } else {
        None
    }
}

/// `base` with its visible fraction widened to `minimum` digits: where a
/// minimum is set and `base` shows fewer fraction digits, `f` gains the zeros
/// that are missing and `v` becomes the minimum. The operands `t` and `w`,
/// which leave trailing zeros out, stay as they are, and so do `n` and `i`.
pub open spec fn widened(base: OperandsView, minimum: Option<nat>) -> OperandsView {
    match minimum {
        Some(m) if m > base.v => OperandsView {
            v: m,
            f: (base.f * pow(10, (m - base.v) as nat)) as nat,
            ..base
        },
        _ => base,
    }
}

/// The operands of a number by what was read from its rendering, under a
/// minimum count of fraction digits.
pub open spec fn widened_checked(base: OperandsView, minimum: Option<nat>) -> Result<
    OperandsView,
    OperandDerivationError,
> {
    if widened(base, minimum).f <= u64::MAX {
        Ok(widened(base, minimum))
    } else {
        Err(OperandDerivationError::FractionOverflow)
    }
}

/// The plural operands of the number rendered as `value`, under a minimum
/// count of fraction digits. A value that is not finite has none, nor has a
/// value that is no rendering of a number at all.
pub open spec fn projected(value: Seq<char>, minimum: Option<nat>) -> Result<
    OperandsView,
    OperandDerivationError,
> {
    if !is_finite(value) {
        Err(OperandDerivationError::NotFinite)
    } else {
        match baseline(value) {
            Some(base) => widened_checked(base, minimum),
            None => Err(OperandDerivationError::Unreadable),
        }
    }
}

/// A minimum of fraction digits that a number shows anyway changes nothing of
/// its operands: where the minimum is no more than the fraction digits read
/// from the rendering, the operands are those of the number without a minimum,
/// and none of its digits is cut off.
pub proof fn lemma_met_minimum_changes_nothing(value: Seq<char>, minimum: nat)
    ensures
        (baseline(value) matches Some(base) ==> minimum <= base.v) ==> projected(
            value,
            Some(minimum),
        ) == projected(value, None),
        forall|base: OperandsView| minimum <= base.v ==> #[trigger] widened(base, Some(minimum)) == base,
{
}

/// A number made from an integer has that integer, without its sign, as its
/// operands `n` and `i`, and no fraction digits but the zeros that a minimum
/// count asks for: `v` is the minimum, and `w`, `f` and `t` are zero. This
/// holds of the integers that a float holds exactly, up to 2^53 in size.
pub proof fn lemma_operands_of_integer(n: int, minimum: Option<nat>)
    requires
        -0x20_0000_0000_0000 <= n <= 0x20_0000_0000_0000,
    ensures
        projected(integer_text(n), minimum) == Ok::<OperandsView, OperandDerivationError>(
            OperandsView {
                n: natural_text(
                    if n < 0 {
                        (-n) as nat
                    } else {
                        n as nat
                    },
                ),
                i: if n < 0 {
                    (-n) as nat
                } else {
                    n as nat
                },
                v: match minimum {
                    Some(m) => m,
                    None => 0,
                },
                w: 0,
                f: 0,
                t: 0,
            },
        ),
{
    let text = integer_text(n);
    let size: nat = if n < 0 {
        (-n) as nat
    } else {
        n as nat
    };
    let digits = natural_text(size);
    lemma_natural_text(size);
    lemma_integer_text_is_rendering(n);
    lemma_integer_displays_as_written(n, 0);
    assert(is_digit(digits[0]));
    assert(unsigned(text) == digits);
    reveal_strlit("NaN");
    reveal_strlit("inf");
    reveal_strlit("-inf");
    assert(is_finite(text)) by {
        assert("NaN"@[0] == 'N');
        assert("inf"@[0] == 'i');
        assert("-inf"@[1] == 'i');
        if n < 0 {
            assert(text[1] == digits[0]);
        }
    }
    assert(digits.index_of_first('.') is None) by {
        digits.index_of_first_ensures('.');
        if digits.contains('.') {
            let at = choose|at: int| 0 <= at < digits.len() && digits[at] == '.';
            assert(is_digit(digits[at]));
        }
    }
    let base = baseline(text).unwrap();
    assert(base.f == 0 && base.v == 0);
    match minimum {
        Some(m) => {
            if m > 0 {
                assert(base.f * pow(10, (m - base.v) as nat) == 0) by (nonlinear_arith)
                    requires
                        base.f == 0,
                ;
            }
        },
        None => {},
    }
}

/// The outcome of a projection with the operands taken by their view.
pub open spec fn outcome_view(outcome: Result<PluralOperands, OperandDerivationError>) -> Result<
    OperandsView,
    OperandDerivationError,
> {
    match outcome {
        Ok(operands) => Ok(operands@),
        Err(error) => Err(error),
    }
}

impl PluralOperands {
    /// Widens the visible fraction to `minimum_fraction_digits`; fails where the
    /// padded fraction digits do not fit the operand `f`.
    pub fn widen(self, minimum_fraction_digits: Option<usize>) -> (outcome: Result<
        PluralOperands,
        OperandDerivationError,
    >)
        ensures
            outcome_view(outcome) == widened_checked(self@, count_view(minimum_fraction_digits)),
    {
        let minimum = match minimum_fraction_digits {
            Some(m) => m,
            None => {
                return Ok(self);
            },
        };
        if minimum <= self.v {
            return Ok(self);
        }
        let missing = minimum - self.v;
        let mut f = self.f;
        if f != 0 {
            let mut done: usize = 0;
            proof {
                lemma_pow0(10);
            }
            while done < missing
                invariant
                    minimum_fraction_digits == Some(minimum),
                    minimum > self.v,
                    missing == minimum - self.v,
                    done <= missing,
                    f > 0,
                    f == self.f * pow(10, done as nat),
                decreases missing - done,
            {
                proof {
                    lemma_pow_step(done as nat);
                    assert(self.f * pow(10, (done + 1) as nat) == f * 10) by (nonlinear_arith)
                        requires
                            f == self.f * pow(10, done as nat),
                            pow(10, (done + 1) as nat) == 10 * pow(10, done as nat),
                    ;
                }
                match f.checked_mul(10) {
                    Some(next) => {
                        f = next;
                        done = done + 1;
                    },
                    None => {
                        proof {
                            lemma_pow_increases(10, (done + 1) as nat, missing as nat);
                            assert(self.f * pow(10, missing as nat) >= self.f * pow(
                                10,
                                (done + 1) as nat,
                            )) by (nonlinear_arith)
                                requires
                                    pow(10, (done + 1) as nat) <= pow(10, missing as nat),
                                    self.f >= 0,
                            ;
                        }
                        return Err(OperandDerivationError::FractionOverflow);
                    },
                }
            }
        } else {
            assert(self.f * pow(10, missing as nat) == 0) by (nonlinear_arith)
                requires
                    self.f == 0,
            ;
        }
        Ok(PluralOperands { n: self.n, i: self.i, v: minimum, w: self.w, f, t: self.t })
    }
}

/// One more power of ten is ten times the last.
proof fn lemma_pow_step(e: nat)
    ensures
        pow(10, e + 1) == 10 * pow(10, e),
{
    reveal(pow);
}

impl FluentNumber {
    /// The plural operands of this number: `n` is its rendering without the
    /// sign, the others are read off the digits of the rendering, and the
    /// visible fraction is widened to the minimum count of fraction digits
    /// where the options set one. No other option bears on them. A value that
    /// is no rendering of a finite number has no operands.
    pub fn to_plural_operands(&self) -> (outcome: Result<PluralOperands, OperandDerivationError>)
        ensures
            outcome_view(outcome) == projected(
                self@.value,
                self@.options.minimum_fraction_digits,
            ),
    {
        let chars = chars_of(self.value.as_str());
        if spells(&chars, "NaN") || spells(&chars, "inf") || spells(&chars, "-inf") {
            return Err(OperandDerivationError::NotFinite);
        }
        if !self.has_rendering() {
            return Err(OperandDerivationError::Unreadable);
        }
        match read_operands(self.value.as_str()) {
            Some((i, v, w, f, t)) => {
                let n = if chars.len() > 0 && chars[0] == '-' {
                    self.value.as_str().substring_char(1, chars.len()).to_owned()
                } else {
                    self.value.clone()
                };
                assert(n@ == unsigned(self@.value));
                let base = PluralOperands { n, i, v, w, f, t };
                base.widen(self.options.minimum_fraction_digits)
            },
            None => Err(OperandDerivationError::Unreadable),
        }
    }
}

} // verus!
