//! The seven case styles and the names their filters go by.

use vstd::prelude::*;

verus! {

/// An output convention for text.
#[derive(Clone, Copy, Debug, PartialEq, Eq, Hash, Structural)]
pub enum CaseStyle {
    /// `SomeText`: every word capitalized, no separator.
    Camel,
    /// `some-text`: lowercase words joined by hyphens.
    Kebab,
    /// `some text`: the whole input in lowercase, separators kept.
    Lower,
    /// `someText`: every word but the first capitalized, no separator.
    Mixed,
    /// `some_text`: lowercase words joined by underscores.
    Snake,
    /// `Some Text`: every word capitalized, joined by single spaces.
    Title,
    /// `SOME TEXT`: the whole input in uppercase, separators kept.
    Upper,
}

impl CaseStyle {
    /// The name under which the style's filter is known to a template engine.
    pub open spec fn name_spec(self) -> Seq<char> {
        match self {
            CaseStyle::Camel => "camel_case"@,
            CaseStyle::Kebab => "kebab_case"@,
            CaseStyle::Lower => "lower_case"@,
            CaseStyle::Mixed => "mixed_case"@,
            CaseStyle::Snake => "snake_case"@,
            CaseStyle::Title => "title_case"@,
            CaseStyle::Upper => "upper_case"@,
        }
    }

    /// Whether the style rebuilds its output from the words of the input,
    /// rather than recasing the input character by character.
    pub open spec fn splits_words(self) -> bool {
        !(self is Lower) && !(self is Upper)
    }

    /// The style's filter name.
    pub fn name(self) -> (r: &'static str)
        ensures
            r@ == self.name_spec(),
    {
        match self {
            CaseStyle::Camel => "camel_case",
            CaseStyle::Kebab => "kebab_case",
            CaseStyle::Lower => "lower_case",
            CaseStyle::Mixed => "mixed_case",
            CaseStyle::Snake => "snake_case",
            CaseStyle::Title => "title_case",
            CaseStyle::Upper => "upper_case",
        }
    }

    /// All seven styles, in alphabetical order of their names.
    pub fn all() -> (r: Vec<CaseStyle>)
        ensures
            r@ == all_styles(),
    {
        let mut styles: Vec<CaseStyle> = Vec::new();
        styles.push(CaseStyle::Camel);
        styles.push(CaseStyle::Kebab);
        styles.push(CaseStyle::Lower);
        styles.push(CaseStyle::Mixed);
        styles.push(CaseStyle::Snake);
        styles.push(CaseStyle::Title);
        styles.push(CaseStyle::Upper);
        styles
    }
}

/// The seven styles as a sequence.
pub open spec fn all_styles() -> Seq<CaseStyle> {
    seq![
        CaseStyle::Camel,
        CaseStyle::Kebab,
        CaseStyle::Lower,
        CaseStyle::Mixed,
        CaseStyle::Snake,
        CaseStyle::Title,
        CaseStyle::Upper,
    ]
}

/// Every style occurs in [`all_styles`].
pub proof fn lemma_all_styles_complete(style: CaseStyle)
    ensures
        all_styles().contains(style),
{
    let i: int = match style {
        CaseStyle::Camel => 0,
        CaseStyle::Kebab => 1,
        CaseStyle::Lower => 2,
        CaseStyle::Mixed => 3,
        CaseStyle::Snake => 4,
        CaseStyle::Title => 5,
        CaseStyle::Upper => 6,
    };
    assert(all_styles()[i] == style);
}

/// No two styles share a filter name.
pub proof fn lemma_names_distinct(a: CaseStyle, b: CaseStyle)
    requires
        a.name_spec() == b.name_spec(),
    ensures
        a == b,
{
    reveal_strlit("camel_case");
    reveal_strlit("kebab_case");
    reveal_strlit("lower_case");
    reveal_strlit("mixed_case");
    reveal_strlit("snake_case");
    reveal_strlit("title_case");
    reveal_strlit("upper_case");
    assert("camel_case"@[0] == 'c');
    assert("kebab_case"@[0] == 'k');
    assert("lower_case"@[0] == 'l');
    assert("mixed_case"@[0] == 'm');
    assert("snake_case"@[0] == 's');
    assert("title_case"@[0] == 't');
    assert("upper_case"@[0] == 'u');
}

} // verus!
