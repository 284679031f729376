use astgen::encoding::Encoding;

#[test]
fn matches_single_extension() {
    let rust_language = tree_sitter_rust::LANGUAGE.into();
    let encoding = Encoding::new(r"rs$", &rust_language, "Rust");
    assert!(encoding.matches("src/main.rs"));
}

#[test]
fn matches_multiple_extensions() {
    let rust_language = tree_sitter_rust::LANGUAGE.into();
    let encoding = Encoding::new(r"(rs|txt)$", &rust_language, "Rust");
    assert!(encoding.matches("src/main.rs"));
    assert!(encoding.matches("src/main.txt"));
}

#[test]
fn does_not_match_incorrect_extension() {
    let rust_language = tree_sitter_rust::LANGUAGE.into();
    let encoding = Encoding::new(r"rs$", &rust_language, "Rust");
    assert!(!encoding.matches("src/main.txt"));
}

#[test]
fn does_not_match_no_extension() {
    let rust_language = tree_sitter_rust::LANGUAGE.into();
    let encoding = Encoding::new(r"rs$", &rust_language, "Rust");
    assert!(!encoding.matches("src/main"));
}

#[test]
fn matches_case_insensitive_extension() {
    let rust_language = tree_sitter_rust::LANGUAGE.into();
    let encoding = Encoding::new(r"(?i)rs$", &rust_language, "Rust");
    assert!(encoding.matches("src/main.RS"));
}

#[test]
fn matches_ruby_extension() {
    let ruby_language = tree_sitter_ruby::LANGUAGE.into();
    let encoding = Encoding::new(r"rb$", &ruby_language, "Ruby");
    assert!(encoding.matches("src/main.rb"));
}
