//! Numbers as a localization pipeline carries them: a value held by its decimal
//! rendering, the options that style it, its display text and its plural operands.

pub mod args;
pub mod from_integer;
pub mod number;
pub mod operands;
pub mod options;
pub mod text;
pub mod to_integer;

pub use crate::args::{FluentArgs, FluentValue};
pub use crate::number::{FluentNumber, ParseError};
pub use crate::operands::{OperandDerivationError, PluralOperands};
pub use crate::options::{
    FluentNumberCurrencyDisplayStyle, FluentNumberOptions, FluentNumberStyle,
};
