//! The five renderings that are rebuilt from the words of a text.
//!
//! Word splitting and joining are done by the `heck` crate. Its results are
//! given names here; the one thing said about them beyond the name is that
//! text without a word gives no output.

use vstd::prelude::*;

verus! {

/// Whether `c` is an ASCII letter or digit.
pub open spec fn is_ascii_alphanumeric(c: char) -> bool {
    ||| 'a' <= c <= 'z'
    ||| 'A' <= c <= 'Z'
    ||| '0' <= c <= '9'
}

/// Whether `s` is ASCII text that holds no letter and no digit, so that it
/// is made of separators and punctuation alone. The empty text is wordless.
pub open spec fn is_wordless(s: Seq<char>) -> bool {
    forall|i: int|
        0 <= i < s.len() ==> '\0' <= #[trigger] s[i] <= '\u{7f}' && !is_ascii_alphanumeric(s[i])
}

/// What `heck::CamelCase::to_camel_case` returns for the text `s`.
pub uninterp spec fn heck_camel_case(s: Seq<char>) -> Seq<char>;

/// What `heck::KebabCase::to_kebab_case` returns for the text `s`.
pub uninterp spec fn heck_kebab_case(s: Seq<char>) -> Seq<char>;

/// What `heck::MixedCase::to_mixed_case` returns for the text `s`.
pub uninterp spec fn heck_mixed_case(s: Seq<char>) -> Seq<char>;

/// What `heck::SnakeCase::to_snake_case` returns for the text `s`.
pub uninterp spec fn heck_snake_case(s: Seq<char>) -> Seq<char>;

/// What `heck::TitleCase::to_title_case` returns for the text `s`.
pub uninterp spec fn heck_title_case(s: Seq<char>) -> Seq<char>;

/// A rendering built from words: nothing where `s` has no word, and
/// otherwise `rendered`, the result of the word-based routine on `s`.
pub open spec fn from_words(s: Seq<char>, rendered: Seq<char>) -> Seq<char> {
    if is_wordless(s) {
        Seq::empty()
    } else {
        rendered
    }
}

/// Calls `heck::CamelCase::to_camel_case` on a `str`.
///
/// Trusted, not proved: the result is a function of the text alone; and it
/// is empty where the text is ASCII without a letter or digit, because the
/// routine writes only the words it finds and a word holds a letter or digit.
#[verifier::external_body]
pub(crate) fn to_camel_case(s: &str) -> (r: String)
    ensures
        r@ == heck_camel_case(s@),
        is_wordless(s@) ==> r@ == Seq::<char>::empty(),
{
    heck::CamelCase::to_camel_case(s)
}

/// Calls `heck::KebabCase::to_kebab_case` on a `str`.
///
/// Trusted, not proved: the result is a function of the text alone; and it
/// is empty where the text is ASCII without a letter or digit, because the
/// routine writes only the words it finds and a word holds a letter or digit.
#[verifier::external_body]
pub(crate) fn to_kebab_case(s: &str) -> (r: String)
    ensures
        r@ == heck_kebab_case(s@),
        is_wordless(s@) ==> r@ == Seq::<char>::empty(),
{
    heck::KebabCase::to_kebab_case(s)
}

/// Calls `heck::MixedCase::to_mixed_case` on a `str`.
///
/// Trusted, not proved: the result is a function of the text alone; and it
/// is empty where the text is ASCII without a letter or digit, because the
/// routine writes only the words it finds and a word holds a letter or digit.
#[verifier::external_body]
pub(crate) fn to_mixed_case(s: &str) -> (r: String)
    ensures
        r@ == heck_mixed_case(s@),
        is_wordless(s@) ==> r@ == Seq::<char>::empty(),
{
    heck::MixedCase::to_mixed_case(s)
}

/// Calls `heck::SnakeCase::to_snake_case` on a `str`.
///
/// Trusted, not proved: the result is a function of the text alone; and it
/// is empty where the text is ASCII without a letter or digit, because the
/// routine writes only the words it finds and a word holds a letter or digit.
#[verifier::external_body]
pub(crate) fn to_snake_case(s: &str) -> (r: String)
    ensures
        r@ == heck_snake_case(s@),
        is_wordless(s@) ==> r@ == Seq::<char>::empty(),
{
    heck::SnakeCase::to_snake_case(s)
}

/// Calls `heck::TitleCase::to_title_case` on a `str`.
///
/// Trusted, not proved: the result is a function of the text alone; and it
/// is empty where the text is ASCII without a letter or digit, because the
/// routine writes only the words it finds and a word holds a letter or digit.
#[verifier::external_body]
pub(crate) fn to_title_case(s: &str) -> (r: String)
    ensures
        r@ == heck_title_case(s@),
        is_wordless(s@) ==> r@ == Seq::<char>::empty(),
{
    heck::TitleCase::to_title_case(s)
}

} // verus!
