//! The one way in which a filter fails.

use vstd::prelude::*;
use crate::style::CaseStyle;

verus! {

/// The failure of a filter.
#[derive(Clone, Copy, Debug, PartialEq, Eq, Structural)]
pub enum FilterError {
    /// The filter of style `filter` was applied to a value that is not a
    /// string.
    TypeMismatch { filter: CaseStyle },
}

impl FilterError {
    /// The style of the filter that failed.
    pub open spec fn style(self) -> CaseStyle {
        match self {
            FilterError::TypeMismatch { filter } => filter,
        }
    }

    /// The name of the filter that failed.
    pub fn filter_name(&self) -> (r: &'static str)
        ensures
            r@ == self.style().name_spec(),
    {
        match self {
            FilterError::TypeMismatch { filter } => filter.name(),
        }
    }

    /// The name of the argument that had the wrong type: always `value`,
    /// the value the filter was applied to.
    pub fn argument(&self) -> (r: &'static str)
        ensures
            r@ == "value"@,
    {
        "value"
    }

    /// The name of the type that the filter expected: always `String`.
    pub fn expected(&self) -> (r: &'static str)
        ensures
            r@ == "String"@,
    {
        "String"
    }
}

/// The mismatch that the filter of `style` reports.
pub open spec fn type_mismatch(style: CaseStyle) -> FilterError {
    FilterError::TypeMismatch { filter: style }
}

} // verus!
