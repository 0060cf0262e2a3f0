//! Conditional construction of space-separated class strings.
//!
//! Values of many shapes (text, numbers, options, sequences, flag maps,
//! conditional pairs, closures) each contribute zero or more class names to a
//! shared buffer; [`Clsx`] takes such values from left to right and returns
//! the finished string.
//!
//! Every contract is stated over the mathematical model in [`model`]: a class
//! string is the non-empty names joined by single spaces.

pub mod arg;
pub mod buffer;
pub mod compose;
pub mod decimal;
pub mod flag_map;
pub mod laws;
pub mod model;

pub use arg::ClsxArg;
pub use buffer::push_with_space_if_needed;
pub use compose::{Clsx, BYTES_PER_ARGUMENT};
pub use decimal::{decimal_digits, decimal_text, digit, push_digits, push_signed, push_unsigned};
pub use model::{class_string, is_tidy, joined, kept, pushed};
