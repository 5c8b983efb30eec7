use rust_stemmers::Algorithm;
use snowball_stemmer::{Language, SnowballStemmer, UnsupportedLanguage};

const ALL_NAMES: [&str; 18] = [
    "arabic", "danish", "dutch", "english", "finnish", "french", "german", "greek", "hungarian",
    "italian", "norwegian", "portuguese", "romanian", "russian", "spanish", "swedish", "tamil",
    "turkish",
];

fn english() -> SnowballStemmer {
    SnowballStemmer::new("english").unwrap()
}

fn words(ws: &[&str]) -> Vec<String> {
    ws.iter().map(|w| w.to_string()).collect()
}

#[test]
fn english_running() {
    assert_eq!(english().stem_word("running"), "run");
}

#[test]
fn english_caresses() {
    assert_eq!(english().stem_word("caresses"), "caress");
}

#[test]
fn english_ponies() {
    assert_eq!(english().stem_word("ponies"), "poni");
}

#[test]
fn english_ties() {
    // Snowball English: "ies" after a single letter becomes "ie".
    assert_eq!(english().stem_word("ties"), "tie");
}

#[test]
fn english_batch() {
    let out = english().stem_words(words(&["running", "caresses"]));
    assert_eq!(out, vec!["run".to_string(), "caress".to_string()]);
}

#[test]
fn french_chevaux() {
    let e = SnowballStemmer::new("french").unwrap();
    assert_eq!(e.stem_word("chevaux"), "cheval");
}

#[test]
fn empty_word_every_language() {
    for name in ALL_NAMES {
        let e = SnowballStemmer::new(name).unwrap();
        assert_eq!(e.stem_word(""), "", "{}", name);
    }
}

#[test]
fn every_identifier_is_accepted() {
    for name in ALL_NAMES {
        let e = SnowballStemmer::new(name).unwrap();
        assert_eq!(Language::from_lowercase_name(name), Some(e.language()));
    }
}

fn refused(name: &str) -> UnsupportedLanguage {
    match SnowballStemmer::new(name) {
        Ok(_) => panic!("{} was accepted", name),
        Err(err) => err,
    }
}

#[test]
fn unknown_languages_are_refused() {
    for name in ["klingon", "", "ENGLISH_US", "english ", "engl"] {
        assert_eq!(refused(name).name, name);
    }
}

#[test]
fn selection_ignores_case() {
    for name in ["English", "ENGLISH", "english", "eNgLiSh"] {
        assert_eq!(SnowballStemmer::new(name).unwrap().language(), Language::English);
    }
    let a = SnowballStemmer::new("English").unwrap();
    let b = SnowballStemmer::new("ENGLISH").unwrap();
    assert_eq!(a.stem_word("generously"), b.stem_word("generously"));
}

#[test]
fn selection_uses_unicode_lowercase() {
    // KELVIN SIGN lower-cases to a plain 'k'.
    assert_eq!(Language::from_name("TUR\u{212A}ISH"), Some(Language::Turkish));
    assert_eq!(Language::from_name("Greek"), Some(Language::Greek));
    assert_eq!(Language::from_name("greco"), None);
}

#[test]
fn lowercase_identifiers_only() {
    assert_eq!(Language::from_lowercase_name("russian"), Some(Language::Russian));
    assert_eq!(Language::from_lowercase_name("Russian"), None);
    assert_eq!(Language::from_lowercase_name(""), None);
}

#[test]
fn algorithm_of_each_language() {
    assert_eq!(Language::French.algorithm(), Algorithm::French);
    assert_eq!(Language::Tamil.algorithm(), Algorithm::Tamil);
    assert_eq!(Language::Arabic.algorithm(), Algorithm::Arabic);
}

#[test]
fn with_language_keeps_language() {
    let e = SnowballStemmer::with_language(Language::German);
    assert_eq!(e.language(), Language::German);
    assert_eq!(e.stem_word("häuser"), "haus");
}

#[test]
fn stemming_is_deterministic() {
    let a = english();
    let b = english();
    for w in ["running", "generalization", "", "Mixed-Case", "\u{1F600}"] {
        assert_eq!(a.stem_word(w), a.stem_word(w));
        assert_eq!(a.stem_word(w), b.stem_word(w));
    }
}

#[test]
fn parallel_matches_serial() {
    let ws = words(&[
        "running", "caresses", "ponies", "ties", "", "happily", "generalizations", "running",
    ]);
    let e = english();
    let serial = e.stem_words(ws.clone());
    let parallel = e.stem_words_parallel(ws.clone());
    assert_eq!(serial, parallel);
    assert_eq!(parallel.len(), ws.len());
    for (i, w) in ws.iter().enumerate() {
        assert_eq!(parallel[i], e.stem_word(w));
    }
}

#[test]
fn parallel_keeps_order_on_a_large_batch() {
    let e = SnowballStemmer::new("spanish").unwrap();
    let ws: Vec<String> = (0..2000).map(|i| format!("palabra{}s", i)).collect();
    assert_eq!(e.stem_words_parallel(ws.clone()), e.stem_words(ws));
}

#[test]
fn empty_batches() {
    let e = english();
    assert!(e.stem_words(Vec::new()).is_empty());
    assert!(e.stem_words_parallel(Vec::new()).is_empty());
}

#[test]
fn stemming_changes_words() {
    let e = english();
    assert_ne!(e.stem_word("connections"), "connections");
    assert_eq!(e.stem_word("connections"), "connect");
}

#[test]
fn words_without_a_suffix_stay() {
    let e = english();
    assert_eq!(e.stem_word("run"), "run");
    assert_eq!(e.stem_word("!!!"), "!!!");
    assert_eq!(SnowballStemmer::new("russian").unwrap().stem_word("abc"), "abc");
}
