//! Conversion of a text to a case style.

use vstd::prelude::*;
use vstd::utf8::is_ascii_chars;
use crate::letters::{
    ascii_lowercase, ascii_uppercase, has_no_ascii_letter, lemma_ascii_lowercase_is_ascii,
    lemma_ascii_uppercase_is_ascii, lowercase, to_lowercase, to_uppercase, uppercase,
};
use crate::style::CaseStyle;
use crate::words::{
    from_words, heck_camel_case, heck_kebab_case, heck_mixed_case, heck_snake_case,
    heck_title_case, is_wordless, to_camel_case, to_kebab_case, to_mixed_case, to_snake_case,
    to_title_case,
};

verus! {

/// The text `s` in the given style.
///
/// `Lower` and `Upper` recase the text as it stands. The other five styles
/// drop everything that is not part of a word and join the recased words.
pub open spec fn converted(style: CaseStyle, s: Seq<char>) -> Seq<char> {
    match style {
        CaseStyle::Camel => from_words(s, heck_camel_case(s)),
        CaseStyle::Kebab => from_words(s, heck_kebab_case(s)),
        CaseStyle::Lower => lowercase(s),
        CaseStyle::Mixed => from_words(s, heck_mixed_case(s)),
        CaseStyle::Snake => from_words(s, heck_snake_case(s)),
        CaseStyle::Title => from_words(s, heck_title_case(s)),
        CaseStyle::Upper => uppercase(s),
    }
}

/// Converts `input` to `style`. Never fails.
pub fn convert(input: &str, style: CaseStyle) -> (out: String)
    ensures
        out@ == converted(style, input@),
{
    match style {
        CaseStyle::Camel => to_camel_case(input),
        CaseStyle::Kebab => to_kebab_case(input),
        CaseStyle::Lower => to_lowercase(input),
        CaseStyle::Mixed => to_mixed_case(input),
        CaseStyle::Snake => to_snake_case(input),
        CaseStyle::Title => to_title_case(input),
        CaseStyle::Upper => to_uppercase(input),
    }
}

/// In every style the empty text converts to the empty text.
pub proof fn lemma_empty_converts_to_empty(style: CaseStyle)
    ensures
        converted(style, Seq::<char>::empty()) == Seq::<char>::empty(),
{
    let e = Seq::<char>::empty();
    assert(is_wordless(e));
    assert(is_ascii_chars(e));
    assert(ascii_lowercase(e) =~= e);
    assert(ascii_uppercase(e) =~= e);
}

/// Text made of ASCII separators and punctuation alone converts to the empty
/// text in the five word-based styles, and to itself in `Lower` and `Upper`.
pub proof fn lemma_wordless_text(style: CaseStyle, s: Seq<char>)
    requires
        is_wordless(s),
    ensures
        style.splits_words() ==> converted(style, s) == Seq::<char>::empty(),
        !style.splits_words() ==> converted(style, s) == s,
{
    assert(is_ascii_chars(s));
    assert(ascii_lowercase(s) =~= s);
    assert(ascii_uppercase(s) =~= s);
}

/// ASCII text without a letter is left as it is by `Lower` and by `Upper`.
pub proof fn lemma_letterless_ascii_unchanged(s: Seq<char>)
    requires
        is_ascii_chars(s),
        has_no_ascii_letter(s),
    ensures
        converted(CaseStyle::Lower, s) == s,
        converted(CaseStyle::Upper, s) == s,
{
    assert(ascii_lowercase(s) =~= s);
    assert(ascii_uppercase(s) =~= s);
}

/// On ASCII text `Lower` and `Upper` are idempotent: converting the output
/// once more changes nothing.
pub proof fn lemma_ascii_recasing_idempotent(s: Seq<char>)
    requires
        is_ascii_chars(s),
    ensures
        converted(CaseStyle::Lower, converted(CaseStyle::Lower, s)) == converted(
            CaseStyle::Lower,
            s,
        ),
        converted(CaseStyle::Upper, converted(CaseStyle::Upper, s)) == converted(
            CaseStyle::Upper,
            s,
        ),
{
    lemma_ascii_lowercase_is_ascii(s);
    lemma_ascii_uppercase_is_ascii(s);
    assert(ascii_lowercase(ascii_lowercase(s)) =~= ascii_lowercase(s));
    assert(ascii_uppercase(ascii_uppercase(s)) =~= ascii_uppercase(s));
}

/// On ASCII text each of `Lower` and `Upper` undoes the other on what the
/// other could have produced: lowering the raised form of lowered text gives
/// the lowered text back, and likewise with the two exchanged.
pub proof fn lemma_ascii_recasing_inverse(s: Seq<char>)
    requires
        is_ascii_chars(s),
    ensures
        converted(CaseStyle::Lower, converted(CaseStyle::Upper, converted(CaseStyle::Lower, s)))
            == converted(CaseStyle::Lower, s),
        converted(CaseStyle::Upper, converted(CaseStyle::Lower, converted(CaseStyle::Upper, s)))
            == converted(CaseStyle::Upper, s),
{
    let low = ascii_lowercase(s);
    let up = ascii_uppercase(s);
    lemma_ascii_lowercase_is_ascii(s);
    lemma_ascii_uppercase_is_ascii(s);
    lemma_ascii_uppercase_is_ascii(low);
    lemma_ascii_lowercase_is_ascii(up);
    assert(ascii_lowercase(ascii_uppercase(low)) =~= low) by {
        assert forall|i: int| 0 <= i < s.len() implies ascii_lowercase(ascii_uppercase(low))[i]
            == low[i] by {
            assert('\0' <= s[i] <= '\u{7f}');
        }
    }
    assert(ascii_uppercase(ascii_lowercase(up)) =~= up) by {
        assert forall|i: int| 0 <= i < s.len() implies ascii_uppercase(ascii_lowercase(up))[i]
            == up[i] by {
            assert('\0' <= s[i] <= '\u{7f}');
        }
    }
}

} // verus!
