//! Text-case filters for template values.
//!
//! A filter takes a dynamically typed [`Value`], insists that it is a string,
//! and returns the string rewritten in one of seven [`CaseStyle`]s.

pub mod convert;
pub mod error;
pub mod filters;
pub mod letters;
pub mod registry;
pub mod style;
pub mod value;
pub mod words;

pub use crate::convert::convert;
pub use crate::error::FilterError;
pub use crate::filters::{
    apply, camel_case, kebab_case, lower_case, mixed_case, snake_case, title_case, upper_case,
};
pub use crate::registry::{register_all, Registry};
pub use crate::style::CaseStyle;
pub use crate::value::{to_value, Number, Value, ValueView};
