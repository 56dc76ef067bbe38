//! A numeric field that may arrive as a native integer or as a string of
//! decimal digits, normalised to one strictly positive 32-bit value.

pub mod digits;
pub mod error;
pub mod numeric;

pub use error::DecodeError;
pub use numeric::DerpNumeric;
pub use numeric::Token;
pub use numeric::TokenView;
