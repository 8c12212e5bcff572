use linsearch::text::{contains_literal, matches_term, normalize_term};

#[test]
fn normalize_term_lowercases() {
    assert_eq!(normalize_term("API"), "api");
    assert_eq!(normalize_term("Fix API Crash"), "fix api crash");
    assert_eq!(normalize_term("already lower"), "already lower");
    assert_eq!(normalize_term(""), "");
}

#[test]
fn normalize_term_follows_unicode() {
    assert_eq!(normalize_term("\u{c4}RGER"), "\u{e4}rger");
    assert_eq!(normalize_term("\u{39f}\u{394}\u{39f}\u{3a3}"), "\u{3bf}\u{3b4}\u{3bf}\u{3c2}");
}

#[test]
fn contains_literal_finds_substrings() {
    assert!(contains_literal("fix api crash", "api"));
    assert!(contains_literal("api", "api"));
    assert!(contains_literal("fix api", "api"));
    assert!(contains_literal("api crash", "api"));
    assert!(!contains_literal("fix ap crash", "api"));
    assert!(!contains_literal("ap", "api"));
    assert!(!contains_literal("a p i", "api"));
}

#[test]
fn contains_literal_is_exact_about_case() {
    assert!(!contains_literal("Fix API crash", "api"));
    assert!(!contains_literal("fix api crash", "API"));
}

#[test]
fn empty_needle_is_found_everywhere() {
    assert!(contains_literal("anything", ""));
    assert!(contains_literal("", ""));
    assert!(!contains_literal("", "x"));
}

#[test]
fn matches_term_ignores_case_of_text() {
    let needle = normalize_term("API");
    assert!(matches_term("Fix API crash", &needle));
    assert!(matches_term("fix api crash", &needle));
    assert!(matches_term("relates to the Api", &needle));
    assert!(!matches_term("Bug", &needle));
}

#[test]
fn texts_that_differ_in_case_match_the_same_terms() {
    for needle in ["api", "crash", "x", ""] {
        assert_eq!(
            matches_term("Fix API Crash", needle),
            matches_term("fIX aPI cRASH", needle)
        );
    }
}

#[test]
fn matches_term_expects_a_lowercase_needle() {
    assert!(!matches_term("Fix API crash", "API"));
}
