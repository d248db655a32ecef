use pokedex::text::same_text;

#[test]
fn equal_texts_are_the_same() {
    assert!(same_text("", ""));
    assert!(same_text("http", "http"));
    assert!(same_text("việt nam", "việt nam"));
}

#[test]
fn a_prefix_is_not_the_same() {
    assert!(!same_text("http", "https"));
    assert!(!same_text("https", "http"));
    assert!(!same_text("", "a"));
    assert!(!same_text("a", ""));
}

#[test]
fn one_differing_character_tells_texts_apart() {
    assert!(!same_text("http", "http "));
    assert!(!same_text("http", "HTTP"));
    assert!(!same_text("abc", "abd"));
    assert!(!same_text("xbc", "abc"));
}
