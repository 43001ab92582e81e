use portfolio_terminal::{chars_of, levenshtein};

#[test]
fn distance_is_symmetric() {
    let pairs = [("kitten", "sitting"), ("flaw", "lawn"), ("", "abc"), ("ping", "pinn"), ("🦀rust", "rust")];
    for (a, b) in pairs {
        assert_eq!(levenshtein(a, b), levenshtein(b, a));
    }
}

#[test]
fn distance_to_self_is_zero() {
    for s in ["", "a", "help", "sudo hire me", "🦀"] {
        assert_eq!(levenshtein(s, s), 0);
    }
}

#[test]
fn distance_from_empty_is_length() {
    assert_eq!(levenshtein("", "projects"), 8);
    assert_eq!(levenshtein("projects", ""), 8);
    assert_eq!(levenshtein("", ""), 0);
}

#[test]
fn distance_known_values() {
    assert_eq!(levenshtein("kitten", "sitting"), 3);
    assert_eq!(levenshtein("flaw", "lawn"), 2);
    assert_eq!(levenshtein("pinn", "ping"), 1);
}

#[test]
fn distance_counts_characters_not_bytes() {
    assert_eq!(levenshtein("🦀rust", "rust"), 1);
    assert_eq!(levenshtein("🦀", "x"), 1);
    assert_eq!(chars_of("a🦀b").len(), 3);
}
