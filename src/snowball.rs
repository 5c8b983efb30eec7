//! The outside code this library rests on: the Snowball algorithms of
//! `rust_stemmers`, and Unicode lower-casing from the standard library.

use rust_stemmers::{Algorithm, Stemmer};
use vstd::prelude::*;

verus! {

/// `rust_stemmers::Algorithm` names one of the Snowball algorithms; its
/// variants carry no data.
#[verifier::external_type_specification]
pub struct ExAlgorithm(Algorithm);

/// `rust_stemmers::Stemmer` holds the algorithm it was created for.
#[verifier::external_type_specification]
#[verifier::external_body]
pub struct ExStemmer(Stemmer);

/// The algorithm that a `rust_stemmers::Stemmer` was created for.
pub uninterp spec fn algorithm_of(s: Stemmer) -> Algorithm;

/// The stem that the Snowball algorithm `a` gives for the word `w`.
pub uninterp spec fn snowball_stem(a: Algorithm, w: Seq<char>) -> Seq<char>;

/// The Unicode lowercase form of `s`.
pub uninterp spec fn lower_of(s: Seq<char>) -> Seq<char>;

/// Relies on `rust_stemmers::Stemmer::create`: the stemmer runs the algorithm
/// it was given.
pub assume_specification[ rust_stemmers::Stemmer::create ](lang: Algorithm) -> (r: Stemmer)
    ensures
        algorithm_of(r) == lang,
;

/// Relies on `rust_stemmers::Stemmer::stem`: the stem depends on the
/// stemmer's algorithm and on the word alone.
#[verifier::external_body]
pub(crate) fn stem_with(stemmer: &Stemmer, word: &str) -> (r: String)
    ensures
        r@ == snowball_stem(algorithm_of(*stemmer), word@),
{
    stemmer.stem(word).into_owned()
}

/// Relies on `str::to_lowercase`: the lowercase form depends on the
/// characters alone.
#[verifier::external_body]
pub(crate) fn lowercase(s: &str) -> (r: String)
    ensures
        r@ == lower_of(s@),
{
    s.to_lowercase()
}

} // verus!
