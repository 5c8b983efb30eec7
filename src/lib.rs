//! A multi-language Snowball stemming engine.
//!
//! A [`SnowballStemmer`] is selected once, from a case-insensitive language
//! name, and then reduces words to their stems, one at a time or in batches
//! (serially or spread over worker threads, with the same result).

mod snowball;

pub mod language;
pub mod stemmer;

pub use language::Language;
pub use stemmer::{SnowballStemmer, UnsupportedLanguage};
pub use snowball::{algorithm_of, lower_of, snowball_stem};
