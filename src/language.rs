//! The closed set of languages that have a Snowball algorithm, and the
//! selection of one of them by name.

use rust_stemmers::Algorithm;
use crate::snowball::{lower_of, lowercase};
use vstd::prelude::*;

verus! {

/// One of the eighteen languages with a Snowball algorithm.
#[derive(Clone, Copy, Debug, PartialEq, Eq, Structural, Hash)]
pub enum Language {
    Arabic,
    Danish,
    Dutch,
    English,
    Finnish,
    French,
    German,
    Greek,
    Hungarian,
    Italian,
    Norwegian,
    Portuguese,
    Romanian,
    Russian,
    Spanish,
    Swedish,
    Tamil,
    Turkish,
}

/// The language whose identifier is exactly `s` (lowercase), if any.
pub open spec fn language_named(s: Seq<char>) -> Option<Language> {
    if s == "arabic"@ {
        Some(Language::Arabic)
    } else if s == "danish"@ {
        Some(Language::Danish)
    } else if s == "dutch"@ {
        Some(Language::Dutch)
    } else if s == "english"@ {
        Some(Language::English)
    } else if s == "finnish"@ {
        Some(Language::Finnish)
    } else if s == "french"@ {
        Some(Language::French)
    } else if s == "german"@ {
        Some(Language::German)
    } else if s == "greek"@ {
        Some(Language::Greek)
    } else if s == "hungarian"@ {
        Some(Language::Hungarian)
    } else if s == "italian"@ {
        Some(Language::Italian)
    } else if s == "norwegian"@ {
        Some(Language::Norwegian)
    } else if s == "portuguese"@ {
        Some(Language::Portuguese)
    } else if s == "romanian"@ {
        Some(Language::Romanian)
    } else if s == "russian"@ {
        Some(Language::Russian)
    } else if s == "spanish"@ {
        Some(Language::Spanish)
    } else if s == "swedish"@ {
        Some(Language::Swedish)
    } else if s == "tamil"@ {
        Some(Language::Tamil)
    } else if s == "turkish"@ {
        Some(Language::Turkish)
    } else {
        None
    }
}

/// The language that a name selects: the one whose identifier is the
/// name's lowercase form.
pub open spec fn selected_language(name: Seq<char>) -> Option<Language> {
    language_named(lower_of(name))
}

/// Whether the two strings hold the same characters.
fn same_chars(a: &str, b: &str) -> (r: bool)
    ensures
        r == (a@ == b@),
{
    let n = a.unicode_len();
    if n != b.unicode_len() {
        return false;
    }
    let mut i: usize = 0;
    while i < n
        invariant
            n == a@.len(),
            n == b@.len(),
            i <= n,
            a@.subrange(0, i as int) == b@.subrange(0, i as int),
        decreases n - i,
    {
        if a.get_char(i) != b.get_char(i) {
            assert(a@[i as int] != b@[i as int]);
            return false;
        }
        assert(a@.subrange(0, i + 1) == a@.subrange(0, i as int).push(a@[i as int]));
        assert(b@.subrange(0, i + 1) == b@.subrange(0, i as int).push(b@[i as int]));
        i = i + 1;
    }
    assert(a@ == a@.subrange(0, n as int));
    assert(b@ == b@.subrange(0, n as int));
    true
}

impl Language {
    /// The lowercase identifier of the language.
    pub open spec fn spec_name(self) -> Seq<char> {
        match self {
            Language::Arabic => "arabic"@,
            Language::Danish => "danish"@,
            Language::Dutch => "dutch"@,
            Language::English => "english"@,
            Language::Finnish => "finnish"@,
            Language::French => "french"@,
            Language::German => "german"@,
            Language::Greek => "greek"@,
            Language::Hungarian => "hungarian"@,
            Language::Italian => "italian"@,
            Language::Norwegian => "norwegian"@,
            Language::Portuguese => "portuguese"@,
            Language::Romanian => "romanian"@,
            Language::Russian => "russian"@,
            Language::Spanish => "spanish"@,
            Language::Swedish => "swedish"@,
            Language::Tamil => "tamil"@,
            Language::Turkish => "turkish"@,
        }
    }

    /// The Snowball algorithm that stems words of the language.
    pub open spec fn spec_algorithm(self) -> Algorithm {
        match self {
            Language::Arabic => Algorithm::Arabic,
            Language::Danish => Algorithm::Danish,
            Language::Dutch => Algorithm::Dutch,
            Language::English => Algorithm::English,
            Language::Finnish => Algorithm::Finnish,
            Language::French => Algorithm::French,
            Language::German => Algorithm::German,
            Language::Greek => Algorithm::Greek,
            Language::Hungarian => Algorithm::Hungarian,
            Language::Italian => Algorithm::Italian,
            Language::Norwegian => Algorithm::Norwegian,
            Language::Portuguese => Algorithm::Portuguese,
            Language::Romanian => Algorithm::Romanian,
            Language::Russian => Algorithm::Russian,
            Language::Spanish => Algorithm::Spanish,
            Language::Swedish => Algorithm::Swedish,
            Language::Tamil => Algorithm::Tamil,
            Language::Turkish => Algorithm::Turkish,
        }
    }

    /// The Snowball algorithm that stems words of the language.
    pub fn algorithm(self) -> (r: Algorithm)
        ensures
            r == self.spec_algorithm(),
    {
        match self {
            Language::Arabic => Algorithm::Arabic,
            Language::Danish => Algorithm::Danish,
            Language::Dutch => Algorithm::Dutch,
            Language::English => Algorithm::English,
            Language::Finnish => Algorithm::Finnish,
            Language::French => Algorithm::French,
            Language::German => Algorithm::German,
            Language::Greek => Algorithm::Greek,
            Language::Hungarian => Algorithm::Hungarian,
            Language::Italian => Algorithm::Italian,
            Language::Norwegian => Algorithm::Norwegian,
            Language::Portuguese => Algorithm::Portuguese,
            Language::Romanian => Algorithm::Romanian,
            Language::Russian => Algorithm::Russian,
            Language::Spanish => Algorithm::Spanish,
            Language::Swedish => Algorithm::Swedish,
            Language::Tamil => Algorithm::Tamil,
            Language::Turkish => Algorithm::Turkish,
        }
    }

    /// The language whose identifier is exactly `name`; identifiers are
    /// lowercase, so this is the step that follows lower-casing a name.
    pub fn from_lowercase_name(name: &str) -> (r: Option<Language>)
        ensures
            r == language_named(name@),
    {
        if same_chars(name, "arabic") {
            Some(Language::Arabic)
        } else if same_chars(name, "danish") {
            Some(Language::Danish)
        } else if same_chars(name, "dutch") {
            Some(Language::Dutch)
        } else if same_chars(name, "english") {
            Some(Language::English)
        } else if same_chars(name, "finnish") {
            Some(Language::Finnish)
        } else if same_chars(name, "french") {
            Some(Language::French)
        } else if same_chars(name, "german") {
            Some(Language::German)
        } else if same_chars(name, "greek") {
            Some(Language::Greek)
        } else if same_chars(name, "hungarian") {
            Some(Language::Hungarian)
        } else if same_chars(name, "italian") {
            Some(Language::Italian)
        } else if same_chars(name, "norwegian") {
            Some(Language::Norwegian)
        } else if same_chars(name, "portuguese") {
            Some(Language::Portuguese)
        } else if same_chars(name, "romanian") {
            Some(Language::Romanian)
        } else if same_chars(name, "russian") {
            Some(Language::Russian)
        } else if same_chars(name, "spanish") {
            Some(Language::Spanish)
        } else if same_chars(name, "swedish") {
            Some(Language::Swedish)
        } else if same_chars(name, "tamil") {
            Some(Language::Tamil)
        } else if same_chars(name, "turkish") {
            Some(Language::Turkish)
        } else {
            None
        }
    }

    /// Selects a language by name, ignoring case: the name's Unicode
    /// lowercase form must be one of the eighteen identifiers.
    pub fn from_name(name: &str) -> (r: Option<Language>)
        ensures
            r == selected_language(name@),
    {
        let lower = lowercase(name);
        Language::from_lowercase_name(lower.as_str())
    }
}

/// The set of accepted names is closed: a name selects a language exactly
/// when its lowercase form is the identifier of one of the eighteen
/// languages, and then it selects that language.
pub proof fn lemma_selection_closed(name: Seq<char>)
    ensures
        selected_language(name) is None <==> (forall|l: Language| lower_of(name) != l.spec_name()),
        selected_language(name) matches Some(l) ==> lower_of(name) == l.spec_name(),
{
    let s = lower_of(name);
    assert forall|l: Language| selected_language(name) is None implies s != l.spec_name() by {
        match l {
            _ => {},
        }
    }
    if let Some(l) = selected_language(name) {
        assert(s == l.spec_name());
    }
}

/// Selection ignores case: two names with the same lowercase form select the
/// same language, or are both refused.
pub proof fn lemma_selection_ignores_case(a: Seq<char>, b: Seq<char>)
    requires
        lower_of(a) == lower_of(b),
    ensures
        selected_language(a) == selected_language(b),
{
}

} // verus!
