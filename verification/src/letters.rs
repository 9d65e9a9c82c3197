//! Lowercase and uppercase renderings of a whole string.
//!
//! The renderings are the standard library's, which follow Unicode. Their
//! effect on ASCII text is simple enough to write down, and is written down
//! here; on other text the result is only given a name.

use vstd::prelude::*;
use vstd::utf8::is_ascii_chars;

verus! {

/// `c` in lowercase, where only the letters `A` to `Z` change.
pub open spec fn ascii_lower(c: char) -> char {
    if 'A' <= c <= 'Z' {
        ((c as u32) + 32) as char
    } else {
        c
    }
}

/// `c` in uppercase, where only the letters `a` to `z` change.
pub open spec fn ascii_upper(c: char) -> char {
    if 'a' <= c <= 'z' {
        ((c as u32) - 32) as char
    } else {
        c
    }
}

/// `s` with [`ascii_lower`] applied to every character.
pub open spec fn ascii_lowercase(s: Seq<char>) -> Seq<char> {
    Seq::new(s.len(), |i: int| ascii_lower(s[i]))
}

/// `s` with [`ascii_upper`] applied to every character.
pub open spec fn ascii_uppercase(s: Seq<char>) -> Seq<char> {
    Seq::new(s.len(), |i: int| ascii_upper(s[i]))
}

/// Whether no character of `s` is one of the letters `A` to `Z`, `a` to `z`.
pub open spec fn has_no_ascii_letter(s: Seq<char>) -> bool {
    forall|i: int|
        0 <= i < s.len() ==> !('A' <= #[trigger] s[i] <= 'Z') && !('a' <= s[i] <= 'z')
}

/// What `str::to_lowercase` returns for the text `s`.
pub uninterp spec fn unicode_lowercase(s: Seq<char>) -> Seq<char>;

/// What `str::to_uppercase` returns for the text `s`.
pub uninterp spec fn unicode_uppercase(s: Seq<char>) -> Seq<char>;

/// The lowercase rendering of `s`: letter by letter on ASCII text, the
/// Unicode rendering on any other.
pub open spec fn lowercase(s: Seq<char>) -> Seq<char> {
    if is_ascii_chars(s) {
        ascii_lowercase(s)
    } else {
        unicode_lowercase(s)
    }
}

/// The uppercase rendering of `s`: letter by letter on ASCII text, the
/// Unicode rendering on any other.
pub open spec fn uppercase(s: Seq<char>) -> Seq<char> {
    if is_ascii_chars(s) {
        ascii_uppercase(s)
    } else {
        unicode_uppercase(s)
    }
}

/// Calls `str::to_lowercase` of the standard library.
///
/// Trusted, not proved: the result is the Unicode lowercase rendering of `s`,
/// a function of the text alone; and on text that is all ASCII that rendering
/// turns `A`..`Z` into `a`..`z` and leaves every other character as it is.
#[verifier::external_body]
pub(crate) fn to_lowercase(s: &str) -> (r: String)
    ensures
        r@ == unicode_lowercase(s@),
        is_ascii_chars(s@) ==> r@ == ascii_lowercase(s@),
{
    s.to_lowercase()
}

/// Calls `str::to_uppercase` of the standard library.
///
/// Trusted, not proved: the result is the Unicode uppercase rendering of `s`,
/// a function of the text alone; and on text that is all ASCII that rendering
/// turns `a`..`z` into `A`..`Z` and leaves every other character as it is.
#[verifier::external_body]
pub(crate) fn to_uppercase(s: &str) -> (r: String)
    ensures
        r@ == unicode_uppercase(s@),
        is_ascii_chars(s@) ==> r@ == ascii_uppercase(s@),
{
    s.to_uppercase()
}

/// Lowering ASCII text gives ASCII text without capital letters.
pub proof fn lemma_ascii_lowercase_is_ascii(s: Seq<char>)
    requires
        is_ascii_chars(s),
    ensures
        is_ascii_chars(ascii_lowercase(s)),
        ascii_lowercase(s).len() == s.len(),
        forall|i: int| 0 <= i < s.len() ==> !('A' <= #[trigger] ascii_lowercase(s)[i] <= 'Z'),
{
    assert forall|i: int| 0 <= i < s.len() implies '\0' <= #[trigger] ascii_lowercase(s)[i]
        <= '\u{7f}' && !('A' <= ascii_lowercase(s)[i] <= 'Z') by {
        assert('\0' <= s[i] <= '\u{7f}');
    }
}

/// Raising ASCII text gives ASCII text without small letters.
pub proof fn lemma_ascii_uppercase_is_ascii(s: Seq<char>)
    requires
        is_ascii_chars(s),
    ensures
        is_ascii_chars(ascii_uppercase(s)),
        ascii_uppercase(s).len() == s.len(),
        forall|i: int| 0 <= i < s.len() ==> !('a' <= #[trigger] ascii_uppercase(s)[i] <= 'z'),
{
    assert forall|i: int| 0 <= i < s.len() implies '\0' <= #[trigger] ascii_uppercase(s)[i]
        <= '\u{7f}' && !('a' <= ascii_uppercase(s)[i] <= 'z') by {
        assert('\0' <= s[i] <= '\u{7f}');
    }
}

} // verus!
