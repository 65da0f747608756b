//! Errors of the tremor scripting language: what went wrong, where in the
//! script it happened, and what hint to give the user.

pub mod pos;
pub mod text;
pub mod value_type;
pub mod hints;
pub mod error_kind;
pub mod error;
pub mod expr;
pub mod parse_error;
pub mod laws;
