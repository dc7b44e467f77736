//! The options that say how a number is to be styled and how many digits it shows.

use vstd::prelude::*;
use vstd::std_specs::cmp::PartialEqSpecImpl;
use vstd::std_specs::convert::FromSpecImpl;

use crate::args::{FluentArgs, FluentValue, ValueView};
use crate::to_integer::saturated;
use crate::text::{chars_of, spells};

verus! {

/// The kind of quantity a number stands for.
#[derive(Debug, Clone, Hash, PartialEq, Eq, Structural)]
pub enum FluentNumberStyle {
    Decimal,
    Currency,
    Percent,
}

impl FluentNumberStyle {
    /// The style that the keyword `word` names; `Decimal` for any other text.
    pub open spec fn named(word: Seq<char>) -> FluentNumberStyle {
        if word == "currency"@ {
            FluentNumberStyle::Currency
        } else if word == "percent"@ {
            FluentNumberStyle::Percent
        } else {
            FluentNumberStyle::Decimal
        }
    }
}

impl Default for FluentNumberStyle {
    fn default() -> (style: Self)
        ensures
            style == FluentNumberStyle::Decimal,
    {
        FluentNumberStyle::Decimal
    }
}

impl From<&str> for FluentNumberStyle {
    fn from(input: &str) -> (style: Self)
        ensures
            style == FluentNumberStyle::named(input@),
    {
        let word = chars_of(input);
        if spells(&word, "currency") {
            FluentNumberStyle::Currency
        } else if spells(&word, "percent") {
            FluentNumberStyle::Percent
        } else {
            FluentNumberStyle::Decimal
        }
    }
}

impl FromSpecImpl<&str> for FluentNumberStyle {
    open spec fn obeys_from_spec() -> bool {
        true
    }

    open spec fn from_spec(input: &str) -> Self {
        FluentNumberStyle::named(input@)
    }
}

/// How the currency of a number in currency style is shown.
#[derive(Debug, Clone, Hash, PartialEq, Eq, Structural)]
pub enum FluentNumberCurrencyDisplayStyle {
    Symbol,
    Code,
    Name,
}

impl FluentNumberCurrencyDisplayStyle {
    /// The display style that the keyword `word` names; `Symbol` for any other text.
    pub open spec fn named(word: Seq<char>) -> FluentNumberCurrencyDisplayStyle {
        if word == "code"@ {
            FluentNumberCurrencyDisplayStyle::Code
        } else if word == "name"@ {
            FluentNumberCurrencyDisplayStyle::Name
        } else {
            FluentNumberCurrencyDisplayStyle::Symbol
        }
    }
}

impl Default for FluentNumberCurrencyDisplayStyle {
    fn default() -> (style: Self)
        ensures
            style == FluentNumberCurrencyDisplayStyle::Symbol,
    {
        FluentNumberCurrencyDisplayStyle::Symbol
    }
}

impl From<&str> for FluentNumberCurrencyDisplayStyle {
    fn from(input: &str) -> (style: Self)
        ensures
            style == FluentNumberCurrencyDisplayStyle::named(input@),
    {
        let word = chars_of(input);
        if spells(&word, "code") {
            FluentNumberCurrencyDisplayStyle::Code
        } else if spells(&word, "name") {
            FluentNumberCurrencyDisplayStyle::Name
        } else {
            FluentNumberCurrencyDisplayStyle::Symbol
        }
    }
}

impl FromSpecImpl<&str> for FluentNumberCurrencyDisplayStyle {
    open spec fn obeys_from_spec() -> bool {
        true
    }

    open spec fn from_spec(input: &str) -> Self {
        FluentNumberCurrencyDisplayStyle::named(input@)
    }
}

/// What a [`FluentNumberOptions`] holds, as plain mathematical values.
pub struct OptionsView {
    pub style: FluentNumberStyle,
    pub currency: Option<Seq<char>>,
    pub currency_display: FluentNumberCurrencyDisplayStyle,
    pub use_grouping: bool,
    pub minimum_integer_digits: Option<nat>,
    pub minimum_fraction_digits: Option<nat>,
    pub maximum_fraction_digits: Option<nat>,
    pub minimum_significant_digits: Option<nat>,
    pub maximum_significant_digits: Option<nat>,
}

impl OptionsView {
    /// The options of a number that nothing has been said about: decimal style,
    /// no currency, no grouping, and no constraint on any digit count.
    pub open spec fn initial() -> OptionsView {
        OptionsView {
            style: FluentNumberStyle::Decimal,
            currency: None,
            currency_display: FluentNumberCurrencyDisplayStyle::Symbol,
            use_grouping: false,
            minimum_integer_digits: None,
            minimum_fraction_digits: None,
            maximum_fraction_digits: None,
            minimum_significant_digits: None,
            maximum_significant_digits: None,
        }
    }
}

/// A digit count as a natural number; an absent count stays absent.
pub open spec fn count_view(count: Option<usize>) -> Option<nat> {
    match count {
        Some(k) => Some(k as nat),
        None => None,
    }
}

/// A text as its characters; an absent text stays absent.
pub open spec fn text_view(text: Option<String>) -> Option<Seq<char>> {
    match text {
        Some(t) => Some(t@),
        None => None,
    }
}

/// How a number is styled and which digit counts constrain it. A digit count
/// that is `None` puts no constraint on the number, which is not the same as a
/// count of zero.
#[derive(Debug, Clone, Hash, Eq)]
pub struct FluentNumberOptions {
    pub style: FluentNumberStyle,
    pub currency: Option<String>,
    pub currency_display: FluentNumberCurrencyDisplayStyle,
    pub use_grouping: bool,
    pub minimum_integer_digits: Option<usize>,
    pub minimum_fraction_digits: Option<usize>,
    pub maximum_fraction_digits: Option<usize>,
    pub minimum_significant_digits: Option<usize>,
    pub maximum_significant_digits: Option<usize>,
}

impl View for FluentNumberOptions {
    type V = OptionsView;

    open spec fn view(&self) -> OptionsView {
        OptionsView {
            style: self.style,
            currency: text_view(self.currency),
            currency_display: self.currency_display,
            use_grouping: self.use_grouping,
            minimum_integer_digits: count_view(self.minimum_integer_digits),
            minimum_fraction_digits: count_view(self.minimum_fraction_digits),
            maximum_fraction_digits: count_view(self.maximum_fraction_digits),
            minimum_significant_digits: count_view(self.minimum_significant_digits),
            maximum_significant_digits: count_view(self.maximum_significant_digits),
        }
    }
}

impl PartialEq for FluentNumberOptions {
    fn eq(&self, other: &Self) -> (same: bool) {
        let same_currency = match (&self.currency, &other.currency) {
            (Some(mine), Some(theirs)) => *mine == *theirs,
            (None, None) => true,
            _ => false,
        };
        same_currency && self.style == other.style && self.currency_display
            == other.currency_display && self.use_grouping == other.use_grouping
            && self.minimum_integer_digits == other.minimum_integer_digits
            && self.minimum_fraction_digits == other.minimum_fraction_digits
            && self.maximum_fraction_digits == other.maximum_fraction_digits
            && self.minimum_significant_digits == other.minimum_significant_digits
            && self.maximum_significant_digits == other.maximum_significant_digits
    }
}

impl PartialEqSpecImpl for FluentNumberOptions {
    open spec fn obeys_eq_spec() -> bool {
        true
    }

    open spec fn eq_spec(&self, other: &Self) -> bool {
        self@ == other@
    }
}

impl Default for FluentNumberOptions {
    fn default() -> (options: Self)
        ensures
            options@ == OptionsView::initial(),
    {
        FluentNumberOptions {
            style: FluentNumberStyle::Decimal,
            currency: None,
            currency_display: FluentNumberCurrencyDisplayStyle::Symbol,
            use_grouping: false,
            minimum_integer_digits: None,
            minimum_fraction_digits: None,
            maximum_fraction_digits: None,
            minimum_significant_digits: None,
            maximum_significant_digits: None,
        }
    }
}

/// The digit count that a numeric argument rendered as `value` sets: its
/// integer part, at most `usize::MAX`, and zero where it is below zero or no
/// number.
pub open spec fn digit_count(value: Seq<char>) -> nat {
    saturated(value, 0, usize::MAX as int) as nat
}

/// `options` after the argument `name` with the value `value` is merged into
/// it. A name that is not one of the nine option names changes nothing, nor
/// does a text where a number is expected, a number where a text is expected,
/// or a text other than `true` and `false` for the grouping flag.
pub open spec fn with_argument(options: OptionsView, name: Seq<char>, value: ValueView) -> OptionsView {
    match value {
        ValueView::String(text) => {
            if name == "style"@ {
                OptionsView { style: FluentNumberStyle::named(text), ..options }
            } else if name == "currency"@ {
                OptionsView { currency: Some(text), ..options }
            } else if name == "currencyDisplay"@ {
                OptionsView {
                    currency_display: FluentNumberCurrencyDisplayStyle::named(text),
                    ..options
                }
            } else if name == "useGrouping"@ {
                if text == "true"@ {
                    OptionsView { use_grouping: true, ..options }
                } else if text == "false"@ {
                    OptionsView { use_grouping: false, ..options }
                } else {
                    options
                }
            } else {
                options
            }
        },
        ValueView::Number(number) => {
            if name == "minimumIntegerDigits"@ {
                OptionsView { minimum_integer_digits: Some(digit_count(number.value)), ..options }
            } else if name == "minimumFractionDigits"@ {
                OptionsView { minimum_fraction_digits: Some(digit_count(number.value)), ..options }
            } else if name == "maximumFractionDigits"@ {
                OptionsView { maximum_fraction_digits: Some(digit_count(number.value)), ..options }
            } else if name == "minimumSignificantDigits"@ {
                OptionsView {
                    minimum_significant_digits: Some(digit_count(number.value)),
                    ..options
                }
            } else if name == "maximumSignificantDigits"@ {
                OptionsView {
                    maximum_significant_digits: Some(digit_count(number.value)),
                    ..options
                }
            } else {
                options
            }
        },
    }
}

/// `options` after the arguments `args` are merged into it one by one, in
/// their order. Of two arguments under one name the later one counts.
pub open spec fn merged(options: OptionsView, args: Seq<(Seq<char>, ValueView)>) -> OptionsView
    decreases args.len(),
{
    if args.len() == 0 {
        options
    } else {
        with_argument(merged(options, args.drop_last()), args.last().0, args.last().1)
    }
}

/// Merging a bag is merging its front part and then the rest.
pub proof fn lemma_merged_in_two_steps(
    options: OptionsView,
    front: Seq<(Seq<char>, ValueView)>,
    rest: Seq<(Seq<char>, ValueView)>,
)
    ensures
        merged(options, front + rest) == merged(merged(options, front), rest),
    decreases rest.len(),
{
    if rest.len() == 0 {
        assert(front + rest == front);
    } else {
        lemma_merged_in_two_steps(options, front, rest.drop_last());
        assert((front + rest).drop_last() == front + rest.drop_last());
        assert((front + rest).last() == rest.last());
    }
}

/// Two arguments of different names may change places: whichever of two
/// neighbours in a bag is merged first, the options come out the same. So the
/// order of a bag in which no name occurs twice has no bearing on a merge.
pub proof fn lemma_order_of_different_names_is_immaterial(
    options: OptionsView,
    before: Seq<(Seq<char>, ValueView)>,
    one: (Seq<char>, ValueView),
    other: (Seq<char>, ValueView),
    after: Seq<(Seq<char>, ValueView)>,
)
    requires
        one.0 != other.0,
    ensures
        merged(options, before + seq![one, other] + after) == merged(
            options,
            before + seq![other, one] + after,
        ),
{
    let start = merged(options, before);
    let forth = seq![one, other];
    let back = seq![other, one];
    assert(forth.drop_last() == seq![one] && forth.last() == other);
    assert(back.drop_last() == seq![other] && back.last() == one);
    let none = Seq::<(Seq<char>, ValueView)>::empty();
    assert(seq![one].drop_last() == none && seq![one].last() == one);
    assert(seq![other].drop_last() == none && seq![other].last() == other);
    assert(merged(start, none) == start);
    assert(merged(start, seq![one]) == with_argument(start, one.0, one.1));
    assert(merged(start, seq![other]) == with_argument(start, other.0, other.1));
    assert(merged(start, forth) == merged(start, back));
    lemma_merged_in_two_steps(options, before, forth);
    lemma_merged_in_two_steps(options, before, back);
    lemma_merged_in_two_steps(options, before + forth, after);
    lemma_merged_in_two_steps(options, before + back, after);
}

/// Whether `name` is one of the nine names under which an argument sets an
/// option.
pub open spec fn is_option_name(name: Seq<char>) -> bool {
    ||| name == "style"@
    ||| name == "currency"@
    ||| name == "currencyDisplay"@
    ||| name == "useGrouping"@
    ||| name == "minimumIntegerDigits"@
    ||| name == "minimumFractionDigits"@
    ||| name == "maximumFractionDigits"@
    ||| name == "minimumSignificantDigits"@
    ||| name == "maximumSignificantDigits"@
}

/// Arguments under names that are no option names change nothing: merging a
/// bag of them leaves every option as it was.
pub proof fn lemma_unknown_names_change_nothing(
    options: OptionsView,
    args: Seq<(Seq<char>, ValueView)>,
)
    requires
        forall|i: int| 0 <= i < args.len() ==> !is_option_name(#[trigger] args[i].0),
    ensures
        merged(options, args) == options,
    decreases args.len(),
{
    if args.len() > 0 {
        let before = args.drop_last();
        assert forall|i: int| 0 <= i < before.len() implies !is_option_name(
            #[trigger] before[i].0,
        ) by {
            assert(before[i] == args[i]);
        }
        lemma_unknown_names_change_nothing(options, before);
        assert(!is_option_name(args.last().0));
    }
}

/// Whether the argument `name` with the value `value` is passed over in a
/// merge: its name is no option name, its value is a text where the option
/// takes a number or a number where it takes a text, or it is a text other
/// than `true` and `false` for the grouping flag.
pub open spec fn is_passed_over(name: Seq<char>, value: ValueView) -> bool {
    match value {
        ValueView::String(text) => {
            &&& name != "style"@
            &&& name != "currency"@
            &&& name != "currencyDisplay"@
            &&& name == "useGrouping"@ ==> text != "true"@ && text != "false"@
        },
        ValueView::Number(_) => {
            &&& name != "minimumIntegerDigits"@
            &&& name != "minimumFractionDigits"@
            &&& name != "maximumFractionDigits"@
            &&& name != "minimumSignificantDigits"@
            &&& name != "maximumSignificantDigits"@
        },
    }
}

/// Arguments that are passed over change nothing: merging a bag of them
/// leaves every option as it was.
pub proof fn lemma_passed_over_arguments_change_nothing(
    options: OptionsView,
    args: Seq<(Seq<char>, ValueView)>,
)
    requires
        forall|i: int| 0 <= i < args.len() ==> is_passed_over(#[trigger] args[i].0, args[i].1),
    ensures
        merged(options, args) == options,
    decreases args.len(),
{
    if args.len() > 0 {
        let before = args.drop_last();
        assert forall|i: int| 0 <= i < before.len() implies is_passed_over(
            #[trigger] before[i].0,
            before[i].1,
        ) by {
            assert(before[i] == args[i]);
        }
        lemma_passed_over_arguments_change_nothing(options, before);
        assert(is_passed_over(args.last().0, args.last().1));
    }
}

/// The grouping flag follows the argument merged last: after `useGrouping`
/// with the text `false` it is off and after `useGrouping` with the text
/// `true` it is on, whatever it was and whatever was merged before.
pub proof fn lemma_grouping_follows_last_argument(
    options: OptionsView,
    args: Seq<(Seq<char>, ValueView)>,
)
    ensures
        !merged(
            options,
            args.push(("useGrouping"@, ValueView::String("false"@))),
        ).use_grouping,
        merged(options, args.push(("useGrouping"@, ValueView::String("true"@)))).use_grouping,
{
    reveal_strlit("style");
    reveal_strlit("currency");
    reveal_strlit("currencyDisplay");
    reveal_strlit("useGrouping");
    reveal_strlit("true");
    reveal_strlit("false");
    assert("useGrouping"@.len() == 11);
    assert("style"@.len() == 5);
    assert("currency"@.len() == 8);
    assert("currencyDisplay"@.len() == 15);
    assert("true"@.len() == 4);
    assert("false"@.len() == 5);
    let off = args.push(("useGrouping"@, ValueView::String("false"@)));
    assert(off.drop_last() == args);
    assert(off.last() == ("useGrouping"@, ValueView::String("false"@)));
    let on = args.push(("useGrouping"@, ValueView::String("true"@)));
    assert(on.drop_last() == args);
    assert(on.last() == ("useGrouping"@, ValueView::String("true"@)));
}

impl FluentNumberOptions {
    /// Merges the arguments of `opts` into these options. Arguments that name
    /// no option, or whose value is of the wrong kind for the option, are
    /// passed over; nothing is checked across fields.
    pub fn merge(&mut self, opts: &FluentArgs)
        ensures
            final(self)@ == merged(old(self)@, opts@),
    {
        let mut done: usize = 0;
        assert(opts@.take(0) =~= Seq::<(Seq<char>, ValueView)>::empty());
        while done < opts.entries.len()
            invariant
                done <= opts.entries.len(),
                self@ == merged(old(self)@, opts@.take(done as int)),
            decreases opts.entries.len() - done,
        {
            proof {
                let next = opts@.take(done + 1);
                assert(next.drop_last() == opts@.take(done as int));
                assert(next.last() == (opts.entries@[done as int].0@, opts.entries@[done as int].1@));
            }
            let name = chars_of(opts.entries[done].0.as_str());
            match &opts.entries[done].1 {
                FluentValue::String(text) => {
                    if spells(&name, "style") {
                        self.style = FluentNumberStyle::from(text.as_str());
                    } else if spells(&name, "currency") {
                        self.currency = Some(text.clone());
                    } else if spells(&name, "currencyDisplay") {
                        self.currency_display = FluentNumberCurrencyDisplayStyle::from(
                            text.as_str(),
                        );
                    } else if spells(&name, "useGrouping") {
                        let word = chars_of(text.as_str());
                        if spells(&word, "true") {
                            self.use_grouping = true;
                        } else if spells(&word, "false") {
                            self.use_grouping = false;
                        }
                    }
                },
                FluentValue::Number(number) => {
                    if spells(&name, "minimumIntegerDigits") {
                        self.minimum_integer_digits = Some(usize::from(number));
                    } else if spells(&name, "minimumFractionDigits") {
                        self.minimum_fraction_digits = Some(usize::from(number));
                    } else if spells(&name, "maximumFractionDigits") {
                        self.maximum_fraction_digits = Some(usize::from(number));
                    } else if spells(&name, "minimumSignificantDigits") {
                        self.minimum_significant_digits = Some(usize::from(number));
                    } else if spells(&name, "maximumSignificantDigits") {
                        self.maximum_significant_digits = Some(usize::from(number));
                    }
                },
            }
            done = done + 1;
        }
        assert(opts@.take(done as int) == opts@);
    }
}

} // verus!
