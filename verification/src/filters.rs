//! The seven filters.
//!
//! Each takes the value it is applied to and the named arguments of the
//! call. No filter reads its arguments.

use std::collections::HashMap;
use std::hash::BuildHasher;
use vstd::prelude::*;
use vstd::utf8::is_ascii_chars;
use crate::convert::{
    convert, converted, lemma_ascii_recasing_idempotent, lemma_ascii_recasing_inverse,
    lemma_empty_converts_to_empty, lemma_wordless_text,
};
use crate::error::{type_mismatch, FilterError};
use crate::style::CaseStyle;
use crate::value::{to_value, Value, ValueView};
use crate::words::is_wordless;

verus! {

/// The successful result of a filter that returns the string `text`.
pub open spec fn ok_text(text: Seq<char>) -> Result<ValueView, FilterError> {
    Ok(ValueView::String(text))
}

/// What the filter of `style` returns for `value`: the converted text where
/// the value is a string, a type mismatch where it is of any other kind.
pub open spec fn filtered(style: CaseStyle, value: ValueView) -> Result<ValueView, FilterError> {
    match value {
        ValueView::String(text) => ok_text(converted(style, text)),
        _ => Err(type_mismatch(style)),
    }
}

/// The result of a filter with the value, if there is one, taken by its view.
pub open spec fn result_view(r: Result<Value, FilterError>) -> Result<ValueView, FilterError> {
    match r {
        Ok(value) => Ok(value@),
        Err(error) => Err(error),
    }
}

/// The text of `value`, or the mismatch that the filter of `style` reports
/// for a value that is not a string.
pub fn expect_string(style: CaseStyle, value: &Value) -> (r: Result<&str, FilterError>)
    ensures
        match value@ {
            ValueView::String(text) => r matches Ok(s) && s@ == text,
            _ => r == Err::<&str, FilterError>(type_mismatch(style)),
        },
{
    match value.as_str() {
        Some(s) => Ok(s),
        None => Err(FilterError::TypeMismatch { filter: style }),
    }
}

/// Applies the filter of `style` to `value`. The arguments are not read.
pub fn apply<S: BuildHasher>(
    style: CaseStyle,
    value: &Value,
    _args: &HashMap<String, Value, S>,
) -> (r: Result<Value, FilterError>)
    ensures
        result_view(r) == filtered(style, value@),
{
    match expect_string(style, value) {
        Ok(s) => Ok(to_value(convert(s, style))),
        Err(e) => Err(e),
    }
}

/// In every style the filter accepts a string, whatever its text, and
/// rejects a value of any other kind with a type mismatch that names the
/// filter.
pub proof fn lemma_only_strings_are_accepted(style: CaseStyle, value: ValueView)
    ensures
        value is String ==> filtered(style, value) is Ok,
        !(value is String) ==> filtered(style, value) == Err::<ValueView, FilterError>(
            type_mismatch(style),
        ),
        type_mismatch(style).style() == style,
{
}

/// In every style the filter turns the empty string into the empty string.
pub proof fn lemma_empty_string_stays_empty(style: CaseStyle)
    ensures
        filtered(style, ValueView::String(Seq::empty())) == ok_text(Seq::empty()),
{
    lemma_empty_converts_to_empty(style);
}

/// A string of ASCII separators and punctuation alone is turned into the
/// empty string by the five word-based filters, and left as it is by
/// `lower_case` and `upper_case`.
pub proof fn lemma_wordless_string(style: CaseStyle, text: Seq<char>)
    requires
        is_wordless(text),
    ensures
        style.splits_words() ==> filtered(style, ValueView::String(text)) == ok_text(Seq::empty()),
        !style.splits_words() ==> filtered(style, ValueView::String(text)) == ok_text(text),
{
    lemma_wordless_text(style, text);
}

/// On an ASCII string `lower_case` is idempotent, and so is `upper_case`:
/// applied to the string it returned, the filter returns that string again.
pub proof fn lemma_ascii_recasing_filters_idempotent(style: CaseStyle, text: Seq<char>)
    requires
        style is Lower || style is Upper,
        is_ascii_chars(text),
    ensures
        filtered(style, ValueView::String(converted(style, text))) == filtered(
            style,
            ValueView::String(text),
        ),
{
    lemma_ascii_recasing_idempotent(text);
}

/// On ASCII strings `lower_case` and `upper_case` undo each other on what
/// the other could have produced: `lower_case` of `upper_case` of a string
/// that `lower_case` returned is that string, and likewise with the two
/// exchanged.
pub proof fn lemma_ascii_recasing_filters_inverse(text: Seq<char>)
    requires
        is_ascii_chars(text),
    ensures
        filtered(
            CaseStyle::Lower,
            ValueView::String(converted(CaseStyle::Upper, converted(CaseStyle::Lower, text))),
        ) == filtered(CaseStyle::Lower, ValueView::String(text)),
        filtered(
            CaseStyle::Upper,
            ValueView::String(converted(CaseStyle::Lower, converted(CaseStyle::Upper, text))),
        ) == filtered(CaseStyle::Upper, ValueView::String(text)),
{
    lemma_ascii_recasing_inverse(text);
}

/// Converts text into CamelCase: `some text` becomes `SomeText`.
///
/// Fails with a type mismatch on a value that is not a string.
pub fn camel_case<S: BuildHasher>(
    value: &Value,
    args: &HashMap<String, Value, S>,
) -> (r: Result<Value, FilterError>)
    ensures
        result_view(r) == filtered(CaseStyle::Camel, value@),
{
    apply(CaseStyle::Camel, value, args)
}

/// Converts text into kebab-case: `some text` becomes `some-text`.
///
/// Fails with a type mismatch on a value that is not a string.
pub fn kebab_case<S: BuildHasher>(
    value: &Value,
    args: &HashMap<String, Value, S>,
) -> (r: Result<Value, FilterError>)
    ensures
        result_view(r) == filtered(CaseStyle::Kebab, value@),
{
    apply(CaseStyle::Kebab, value, args)
}

/// Converts text into lowercase: `soMe Text` becomes `some text`.
///
/// Fails with a type mismatch on a value that is not a string.
pub fn lower_case<S: BuildHasher>(
    value: &Value,
    args: &HashMap<String, Value, S>,
) -> (r: Result<Value, FilterError>)
    ensures
        result_view(r) == filtered(CaseStyle::Lower, value@),
{
    apply(CaseStyle::Lower, value, args)
}

/// Converts text into mixedCase: `Some text` becomes `someText`.
///
/// Fails with a type mismatch on a value that is not a string.
pub fn mixed_case<S: BuildHasher>(
    value: &Value,
    args: &HashMap<String, Value, S>,
) -> (r: Result<Value, FilterError>)
    ensures
        result_view(r) == filtered(CaseStyle::Mixed, value@),
{
    apply(CaseStyle::Mixed, value, args)
}

/// Converts text into snake_case: `some text` becomes `some_text`.
///
/// Fails with a type mismatch on a value that is not a string.
pub fn snake_case<S: BuildHasher>(
    value: &Value,
    args: &HashMap<String, Value, S>,
) -> (r: Result<Value, FilterError>)
    ensures
        result_view(r) == filtered(CaseStyle::Snake, value@),
{
    apply(CaseStyle::Snake, value, args)
}

/// Converts text into Title Case: `some text` becomes `Some Text`.
///
/// Fails with a type mismatch on a value that is not a string.
pub fn title_case<S: BuildHasher>(
    value: &Value,
    args: &HashMap<String, Value, S>,
) -> (r: Result<Value, FilterError>)
    ensures
        result_view(r) == filtered(CaseStyle::Title, value@),
{
    apply(CaseStyle::Title, value, args)
}

/// Converts text into UPPERCASE: `soMe Text` becomes `SOME TEXT`.
///
/// Fails with a type mismatch on a value that is not a string.
pub fn upper_case<S: BuildHasher>(
    value: &Value,
    args: &HashMap<String, Value, S>,
) -> (r: Result<Value, FilterError>)
    ensures
        result_view(r) == filtered(CaseStyle::Upper, value@),
{
    apply(CaseStyle::Upper, value, args)
}

} // verus!
