//! The stemming engine: one language's Snowball algorithm, applied to single
//! words or to batches of words.

use crate::language::{selected_language, Language};
use crate::snowball::{algorithm_of, snowball_stem, stem_with};
use rayon::iter::{IntoParallelRefIterator, ParallelIterator};
use rust_stemmers::Stemmer;
use vstd::prelude::*;

verus! {

/// The stem of `w` in language `l`.
pub open spec fn language_stem(l: Language, w: Seq<char>) -> Seq<char> {
    snowball_stem(l.spec_algorithm(), w)
}

/// The characters of each string, in order.
pub open spec fn views(s: Seq<String>) -> Seq<Seq<char>> {
    s.map_values(|x: String| x@)
}

/// The error of selecting a language by a name that is none of the eighteen
/// identifiers; it carries the name as it was given.
#[derive(Clone, Debug)]
pub struct UnsupportedLanguage {
    pub name: String,
}

/// A stemmer for one language. It holds no state but the algorithm, so
/// stemming a word never depends on earlier calls.
pub struct SnowballStemmer {
    language: Language,
    stemmer: Stemmer,
}

impl SnowballStemmer {
    #[verifier::type_invariant]
    spec fn runs_its_language(self) -> bool {
        algorithm_of(self.stemmer) == self.language.spec_algorithm()
    }

    /// The language this stemmer was created for.
    pub closed spec fn spec_language(&self) -> Language {
        self.language
    }

    /// The stem this stemmer gives for `w`.
    pub open spec fn stem_spec(&self, w: Seq<char>) -> Seq<char> {
        language_stem(self.spec_language(), w)
    }

    /// The stems this stemmer gives for `words`, in order.
    pub open spec fn stems(&self, words: Seq<String>) -> Seq<Seq<char>> {
        words.map_values(|w: String| self.stem_spec(w@))
    }

    /// Creates the stemmer of a language.
    pub fn with_language(language: Language) -> (r: SnowballStemmer)
        ensures
            r.spec_language() == language,
    {
        let stemmer = Stemmer::create(language.algorithm());
        SnowballStemmer { language, stemmer }
    }

    /// Creates the stemmer of the language named by `lang`, in any case; a
    /// name that is none of the eighteen identifiers is refused.
    pub fn new(lang: &str) -> (r: Result<SnowballStemmer, UnsupportedLanguage>)
        ensures
            match r {
                Ok(e) => selected_language(lang@) == Some(e.spec_language()),
                Err(err) => selected_language(lang@) is None && err.name@ == lang@,
            },
    {
        match Language::from_name(lang) {
            Some(language) => Ok(SnowballStemmer::with_language(language)),
            None => Err(UnsupportedLanguage { name: lang.to_owned() }),
        }
    }

    /// The language this stemmer was created for.
    pub fn language(&self) -> (r: Language)
        ensures
            r == self.spec_language(),
    {
        self.language
    }

    /// The stem of `input`.
    pub fn stem_word(&self, input: &str) -> (r: String)
        ensures
            r@ == self.stem_spec(input@),
    {
        proof {
            use_type_invariant(self);
        }
        stem_with(&self.stemmer, input)
    }

    /// The stems of `inputs`, one for each word and in the same order,
    /// computed one after the other.
    pub fn stem_words(&self, inputs: Vec<String>) -> (r: Vec<String>)
        ensures
            r@.len() == inputs@.len(),
            forall|i: int| 0 <= i < r@.len() ==> #[trigger] r@[i]@ == self.stem_spec(inputs@[i]@),
    {
        let mut out: Vec<String> = Vec::new();
        let mut i: usize = 0;
        while i < inputs.len()
            invariant
                i <= inputs@.len(),
                out@.len() == i,
                forall|j: int| 0 <= j < i ==> #[trigger] out@[j]@ == self.stem_spec(inputs@[j]@),
            decreases inputs@.len() - i,
        {
            out.push(self.stem_word(inputs[i].as_str()));
            i = i + 1;
        }
        out
    }

    /// The stems of `inputs`, one for each word and in the same order,
    /// computed on a pool of worker threads.
    pub fn stem_words_parallel(&self, inputs: Vec<String>) -> (r: Vec<String>)
        ensures
            views(r@) == self.stems(inputs@),
    {
        let r = stem_each_parallel(self, &inputs);
        assert(views(r@) =~= self.stems(inputs@));
        r
    }
}

/// Relies on rayon's `par_iter().map(..).collect()` into a `Vec`: each word is
/// mapped once, and the results come back in the order of the words.
#[verifier::external_body]
fn stem_each_parallel(e: &SnowballStemmer, words: &Vec<String>) -> (r: Vec<String>)
    ensures
        r@.len() == words@.len(),
        forall|i: int| 0 <= i < r@.len() ==> #[trigger] r@[i]@ == e.stem_spec(words@[i]@),
{
    words.par_iter().map(|w| e.stem_word(w.as_str())).collect()
}

/// Stemming is deterministic: two stemmers of the same language, however and
/// whenever they were created, give every word the same stem.
pub proof fn lemma_stem_deterministic(a: &SnowballStemmer, b: &SnowballStemmer, w: Seq<char>)
    requires
        a.spec_language() == b.spec_language(),
    ensures
        a.stem_spec(w) == b.stem_spec(w),
{
}

/// Stemming a batch on worker threads gives what stemming it serially gives,
/// element for element.
pub proof fn lemma_parallel_matches_serial(
    e: &SnowballStemmer,
    words: Seq<String>,
    serial: Seq<String>,
    parallel: Seq<String>,
)
    requires
        serial.len() == words.len(),
        forall|i: int| 0 <= i < serial.len() ==> #[trigger] serial[i]@ == e.stem_spec(words[i]@),
        views(parallel) == e.stems(words),
    ensures
        views(serial) == views(parallel),
{
    assert(views(serial) =~= e.stems(words));
}

} // verus!
