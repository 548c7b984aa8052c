//! Conversion of three-character Japanese era codes, such as `"M45"` or
//! `"431"`, to Gregorian calendar years.
//!
//! A code has three characters: a prefix that names the era, by its letter
//! or by its digit, and the year within the era in two decimal digits.
//!
//! - [`era`]: the five eras and the table that describes them.
//! - [`digits`]: reading and writing decimal digits.
//! - [`error`]: the reasons for which a code is rejected, and their messages.
//! - [`convert`]: from a code to its year.
//! - [`encode`]: from a year back to a code.
//! - [`laws`]: what holds of the conversion for every code.

pub mod convert;
pub mod digits;
pub mod encode;
pub mod era;
pub mod error;
pub mod laws;

pub use convert::{convert, to_gregorian_year};
pub use encode::{era_code_from_year, era_of_year};
pub use era::{Era, EraDefinition};
pub use error::ErrorKind;
