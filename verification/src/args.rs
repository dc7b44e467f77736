//! The named arguments that a caller hands to a formatting call.

use vstd::prelude::*;
use vstd::std_specs::convert::FromSpecImpl;

use crate::from_integer::integer_text;
use crate::number::{FluentNumber, NumberView};
use crate::options::OptionsView;
use crate::text::{chars_of, spells};

verus! {

/// What a [`FluentValue`] holds, as plain mathematical values.
pub enum ValueView {
    String(Seq<char>),
    Number(NumberView),
}

/// The value of one argument: a text or a number.
#[derive(Debug, Clone, PartialEq)]
pub enum FluentValue {
    String(String),
    Number(FluentNumber),
}

impl View for FluentValue {
    type V = ValueView;

    open spec fn view(&self) -> ValueView {
        match self {
            FluentValue::String(text) => ValueView::String(text@),
            FluentValue::Number(number) => ValueView::Number(number@),
        }
    }
}

impl From<FluentNumber> for FluentValue {
    fn from(number: FluentNumber) -> (value: FluentValue)
        ensures
            value == FluentValue::Number(number),
    {
        FluentValue::Number(number)
    }
}

impl FromSpecImpl<FluentNumber> for FluentValue {
    open spec fn obeys_from_spec() -> bool {
        true
    }

    open spec fn from_spec(number: FluentNumber) -> FluentValue {
        FluentValue::Number(number)
    }
}

impl From<String> for FluentValue {
    fn from(text: String) -> (value: FluentValue)
        ensures
            value == FluentValue::String(text),
    {
        FluentValue::String(text)
    }
}

impl FromSpecImpl<String> for FluentValue {
    open spec fn obeys_from_spec() -> bool {
        true
    }

    open spec fn from_spec(text: String) -> FluentValue {
        FluentValue::String(text)
    }
}

impl From<&str> for FluentValue {
    fn from(text: &str) -> (value: FluentValue)
        ensures
            value@ == ValueView::String(text@),
    {
        FluentValue::String(text.to_owned())
    }
}

impl FromSpecImpl<&str> for FluentValue {
    /// The outcome is stated by its view, on `from` itself: two texts of the
    /// same characters need not be one value.
    open spec fn obeys_from_spec() -> bool {
        false
    }

    open spec fn from_spec(text: &str) -> FluentValue {
        arbitrary()
    }
}

impl From<i8> for FluentValue {
    fn from(n: i8) -> (value: FluentValue)
        ensures
            value@ == ValueView::Number(
                NumberView { value: integer_text(n as int), options: OptionsView::initial() },
            ),
    {
        FluentValue::Number(FluentNumber::from(n))
    }
}

impl FromSpecImpl<i8> for FluentValue {
    /// The outcome is stated by its view, on `from` itself: two texts of the
    /// same characters need not be one value.
    open spec fn obeys_from_spec() -> bool {
        false
    }

    open spec fn from_spec(n: i8) -> FluentValue {
        arbitrary()
    }
}

impl From<&i8> for FluentValue {
    fn from(n: &i8) -> (value: FluentValue)
        ensures
            value@ == ValueView::Number(
                NumberView { value: integer_text(*n as int), options: OptionsView::initial() },
            ),
    {
        FluentValue::Number(FluentNumber::from(*n))
    }
}

impl FromSpecImpl<&i8> for FluentValue {
    /// The outcome is stated by its view, on `from` itself: two texts of the
    /// same characters need not be one value.
    open spec fn obeys_from_spec() -> bool {
        false
    }

    open spec fn from_spec(n: &i8) -> FluentValue {
        arbitrary()
    }
}

impl From<i16> for FluentValue {
    fn from(n: i16) -> (value: FluentValue)
        ensures
            value@ == ValueView::Number(
                NumberView { value: integer_text(n as int), options: OptionsView::initial() },
            ),
    {
        FluentValue::Number(FluentNumber::from(n))
    }
}

impl FromSpecImpl<i16> for FluentValue {
    /// The outcome is stated by its view, on `from` itself: two texts of the
    /// same characters need not be one value.
    open spec fn obeys_from_spec() -> bool {
        false
    }

    open spec fn from_spec(n: i16) -> FluentValue {
        arbitrary()
    }
}

impl From<&i16> for FluentValue {
    fn from(n: &i16) -> (value: FluentValue)
        ensures
            value@ == ValueView::Number(
                NumberView { value: integer_text(*n as int), options: OptionsView::initial() },
            ),
    {
        FluentValue::Number(FluentNumber::from(*n))
    }
}

impl FromSpecImpl<&i16> for FluentValue {
    /// The outcome is stated by its view, on `from` itself: two texts of the
    /// same characters need not be one value.
    open spec fn obeys_from_spec() -> bool {
        false
    }

    open spec fn from_spec(n: &i16) -> FluentValue {
        arbitrary()
    }
}

impl From<i32> for FluentValue {
    fn from(n: i32) -> (value: FluentValue)
        ensures
            value@ == ValueView::Number(
                NumberView { value: integer_text(n as int), options: OptionsView::initial() },
            ),
    {
        FluentValue::Number(FluentNumber::from(n))
    }
}

impl FromSpecImpl<i32> for FluentValue {
    /// The outcome is stated by its view, on `from` itself: two texts of the
    /// same characters need not be one value.
    open spec fn obeys_from_spec() -> bool {
        false
    }

    open spec fn from_spec(n: i32) -> FluentValue {
        arbitrary()
    }
}

impl From<&i32> for FluentValue {
    fn from(n: &i32) -> (value: FluentValue)
        ensures
            value@ == ValueView::Number(
                NumberView { value: integer_text(*n as int), options: OptionsView::initial() },
            ),
    {
        FluentValue::Number(FluentNumber::from(*n))
    }
}

impl FromSpecImpl<&i32> for FluentValue {
    /// The outcome is stated by its view, on `from` itself: two texts of the
    /// same characters need not be one value.
    open spec fn obeys_from_spec() -> bool {
        false
    }

    open spec fn from_spec(n: &i32) -> FluentValue {
        arbitrary()
    }
}

impl From<u8> for FluentValue {
    fn from(n: u8) -> (value: FluentValue)
        ensures
            value@ == ValueView::Number(
                NumberView { value: integer_text(n as int), options: OptionsView::initial() },
            ),
    {
        FluentValue::Number(FluentNumber::from(n))
    }
}

impl FromSpecImpl<u8> for FluentValue {
    /// The outcome is stated by its view, on `from` itself: two texts of the
    /// same characters need not be one value.
    open spec fn obeys_from_spec() -> bool {
        false
    }

    open spec fn from_spec(n: u8) -> FluentValue {
        arbitrary()
    }
}

impl From<&u8> for FluentValue {
    fn from(n: &u8) -> (value: FluentValue)
        ensures
            value@ == ValueView::Number(
                NumberView { value: integer_text(*n as int), options: OptionsView::initial() },
            ),
    {
        FluentValue::Number(FluentNumber::from(*n))
    }
}

impl FromSpecImpl<&u8> for FluentValue {
    /// The outcome is stated by its view, on `from` itself: two texts of the
    /// same characters need not be one value.
    open spec fn obeys_from_spec() -> bool {
        false
    }

    open spec fn from_spec(n: &u8) -> FluentValue {
        arbitrary()
    }
}

impl From<u16> for FluentValue {
    fn from(n: u16) -> (value: FluentValue)
        ensures
            value@ == ValueView::Number(
                NumberView { value: integer_text(n as int), options: OptionsView::initial() },
            ),
    {
        FluentValue::Number(FluentNumber::from(n))
    }
}

impl FromSpecImpl<u16> for FluentValue {
    /// The outcome is stated by its view, on `from` itself: two texts of the
    /// same characters need not be one value.
    open spec fn obeys_from_spec() -> bool {
        false
    }

    open spec fn from_spec(n: u16) -> FluentValue {
        arbitrary()
    }
}

impl From<&u16> for FluentValue {
    fn from(n: &u16) -> (value: FluentValue)
        ensures
            value@ == ValueView::Number(
                NumberView { value: integer_text(*n as int), options: OptionsView::initial() },
            ),
    {
        FluentValue::Number(FluentNumber::from(*n))
    }
}

impl FromSpecImpl<&u16> for FluentValue {
    /// The outcome is stated by its view, on `from` itself: two texts of the
    /// same characters need not be one value.
    open spec fn obeys_from_spec() -> bool {
        false
    }

    open spec fn from_spec(n: &u16) -> FluentValue {
        arbitrary()
    }
}

impl From<u32> for FluentValue {
    fn from(n: u32) -> (value: FluentValue)
        ensures
            value@ == ValueView::Number(
                NumberView { value: integer_text(n as int), options: OptionsView::initial() },
            ),
    {
        FluentValue::Number(FluentNumber::from(n))
    }
}

impl FromSpecImpl<u32> for FluentValue {
    /// The outcome is stated by its view, on `from` itself: two texts of the
    /// same characters need not be one value.
    open spec fn obeys_from_spec() -> bool {
        false
    }

    open spec fn from_spec(n: u32) -> FluentValue {
        arbitrary()
    }
}

impl From<&u32> for FluentValue {
    fn from(n: &u32) -> (value: FluentValue)
        ensures
            value@ == ValueView::Number(
                NumberView { value: integer_text(*n as int), options: OptionsView::initial() },
            ),
    {
        FluentValue::Number(FluentNumber::from(*n))
    }
}

impl FromSpecImpl<&u32> for FluentValue {
    /// The outcome is stated by its view, on `from` itself: two texts of the
    /// same characters need not be one value.
    open spec fn obeys_from_spec() -> bool {
        false
    }

    open spec fn from_spec(n: &u32) -> FluentValue {
        arbitrary()
    }
}

/// Where the argument `name` stands in `args`: the place of the first argument
/// of that name, or the length of `args` where it holds none.
pub open spec fn position_of(args: Seq<(Seq<char>, ValueView)>, name: Seq<char>) -> nat
    decreases args.len(),
{
    if args.len() == 0 || args[0].0 == name {
        0
    } else {
        1 + position_of(args.drop_first(), name)
    }
}

/// The place that [`position_of`] gives lies within `args` or right after
/// it, holds the name where it lies within, and no earlier place holds it.
pub proof fn lemma_position_of(args: Seq<(Seq<char>, ValueView)>, name: Seq<char>)
    ensures
        position_of(args, name) <= args.len(),
        position_of(args, name) < args.len() ==> args[position_of(args, name) as int].0 == name,
        forall|i: int| 0 <= i < position_of(args, name) ==> (#[trigger] args[i]).0 != name,
    decreases args.len(),
{
    if args.len() > 0 && args[0].0 != name {
        let rest = args.drop_first();
        lemma_position_of(rest, name);
        assert forall|i: int| 0 <= i < position_of(args, name) implies (#[trigger] args[i]).0
            != name by {
            if i > 0 {
                assert(args[i] == rest[i - 1]);
            }
        }
        if position_of(args, name) < args.len() {
            assert(args[position_of(args, name) as int] == rest[position_of(rest, name) as int]);
        }
    }
}

/// Whether no name occurs twice in `args`.
pub open spec fn distinct_names(args: Seq<(Seq<char>, ValueView)>) -> bool {
    forall|i: int, j: int| 0 <= i < j < args.len() ==> (#[trigger] args[i]).0 != (#[trigger] args[j]).0
}

/// `args` after the argument `name` is set to `value`: the value takes the
/// place of the one that `args` held under that name, and comes last where it
/// held none.
pub open spec fn with_entry(
    args: Seq<(Seq<char>, ValueView)>,
    name: Seq<char>,
    value: ValueView,
) -> Seq<(Seq<char>, ValueView)> {
    if position_of(args, name) < args.len() {
        args.update(position_of(args, name) as int, (name, value))
    } else {
        args.push((name, value))
    }
}

/// Setting an argument keeps the names of a bag apart.
pub proof fn lemma_with_entry_keeps_names_distinct(
    args: Seq<(Seq<char>, ValueView)>,
    name: Seq<char>,
    value: ValueView,
)
    requires
        distinct_names(args),
    ensures
        distinct_names(with_entry(args, name, value)),
{
    lemma_position_of(args, name);
    let after = with_entry(args, name, value);
    let at = position_of(args, name) as int;
    assert forall|i: int, j: int| 0 <= i < j < after.len() implies (#[trigger] after[i]).0 != (
    #[trigger] after[j]).0 by {
        if at < args.len() {
            assert(after[i].0 == args[i].0);
            assert(after[j].0 == args[j].0);
        } else if j < args.len() {
            assert(after[i] == args[i] && after[j] == args[j]);
        } else {
            assert(after[i] == args[i]);
        }
    }
}

/// A bag of named arguments. A bag that is built by [`FluentArgs::new`] and
/// [`FluentArgs::set`] holds each name once, as a map from names to values
/// does.
#[derive(Debug, Clone, PartialEq)]
pub struct FluentArgs {
    pub entries: Vec<(String, FluentValue)>,
}

impl View for FluentArgs {
    type V = Seq<(Seq<char>, ValueView)>;

    open spec fn view(&self) -> Seq<(Seq<char>, ValueView)> {
        Seq::new(self.entries@.len(), |i: int| (self.entries@[i].0@, self.entries@[i].1@))
    }
}

impl FluentArgs {
    /// Whether the bag holds each name once.
    pub open spec fn has_distinct_names(&self) -> bool {
        distinct_names(self@)
    }

    /// A bag without arguments.
    pub fn new() -> (args: Self)
        ensures
            args@ == Seq::<(Seq<char>, ValueView)>::empty(),
            args.has_distinct_names(),
    {
        FluentArgs { entries: Vec::new() }
    }

    /// Sets the argument `name` to `value`: in the place of the argument that
    /// the bag holds under that name, or after all others where it holds none.
    pub fn set(&mut self, name: &str, value: FluentValue)
        ensures
            final(self)@ == with_entry(old(self)@, name@, value@),
            old(self).has_distinct_names() ==> final(self).has_distinct_names(),
    {
        let wanted = chars_of(name);
        let mut at: usize = 0;
        while at < self.entries.len()
            invariant
                at <= self.entries.len(),
                wanted@ == name@,
                *self == *old(self),
                forall|i: int| 0 <= i < at ==> (#[trigger] self@[i]).0 != name@,
            decreases self.entries.len() - at,
        {
            if spells(&wanted, self.entries[at].0.as_str()) {
                proof {
                    lemma_position_found(self@, name@, at as nat);
                    if self.has_distinct_names() {
                        lemma_with_entry_keeps_names_distinct(self@, name@, value@);
                    }
                }
                self.entries.set(at, (name.to_owned(), value));
                assert(self@ == with_entry(old(self)@, name@, value@));
                return ;
            }
            at = at + 1;
        }
        proof {
            lemma_position_found(self@, name@, at as nat);
            if self.has_distinct_names() {
                lemma_with_entry_keeps_names_distinct(self@, name@, value@);
            }
        }
        self.entries.push((name.to_owned(), value));
        assert(self@ == with_entry(old(self)@, name@, value@));
    }
}

/// The place of a name is `at`, where no earlier argument bears the name and
/// the one at `at`, if there is one, does.
proof fn lemma_position_found(args: Seq<(Seq<char>, ValueView)>, name: Seq<char>, at: nat)
    requires
        at <= args.len(),
        forall|i: int| 0 <= i < at ==> (#[trigger] args[i]).0 != name,
        at < args.len() ==> args[at as int].0 == name,
    ensures
        position_of(args, name) == at,
{
    lemma_position_of(args, name);
    let found = position_of(args, name);
    if found < at {
        assert(args[found as int].0 != name);
    }
}

} // verus!
