use astgen::encodings::Encodings;
use astgen::error::AstgenError;

#[test]
fn new_creates_empty_encodings() {
    let encodings = Encodings::new();
    assert_eq!(encodings.len(), 0);
}

#[test]
fn add_single_encoding() {
    let mut encodings = Encodings::new();
    let rust_language = tree_sitter_rust::LANGUAGE.into();

    encodings.add("rs$", &rust_language, "Rust");

    assert_eq!(encodings.len(), 1);
    assert_eq!(encodings.get(0).unwrap().name, "Rust");
}

#[test]
fn add_multiple_encodings_chained() {
    let mut encodings = Encodings::new();
    let rust_language = tree_sitter_rust::LANGUAGE.into();
    let java_language = tree_sitter_java::LANGUAGE.into();

    encodings
        .add("rs$", &rust_language, "Rust")
        .add("java$", &java_language, "Java");

    assert_eq!(encodings.len(), 2);
    assert_eq!(encodings.get(0).unwrap().name, "Rust");
    assert_eq!(encodings.get(1).unwrap().name, "Java");
}

#[test]
fn match_file_finds_correct_encoding() {
    let mut encodings = Encodings::new();
    let rust_language = tree_sitter_rust::LANGUAGE.into();
    let java_language = tree_sitter_java::LANGUAGE.into();

    encodings
        .add("rs$", &rust_language, "Rust")
        .add("java$", &java_language, "Java");

    let result = encodings.match_file("src/main.rs");
    assert!(result.is_some());
    assert_eq!(result.unwrap().name, "Rust");

    let result = encodings.match_file("src/Main.java");
    assert!(result.is_some());
    assert_eq!(result.unwrap().name, "Java");
}

#[test]
fn match_file_returns_none_for_no_match() {
    let mut encodings = Encodings::new();
    let rust_language = tree_sitter_rust::LANGUAGE.into();

    encodings.add("rs$", &rust_language, "Rust");

    let result = encodings.match_file("src/main.txt");
    assert!(result.is_none());
}

#[test]
fn match_file_returns_none_for_empty_encodings() {
    let encodings = Encodings::new();

    let result = encodings.match_file("src/main.rs");
    assert!(result.is_none());
}

#[test]
fn match_file_returns_first_match_when_multiple_patterns_match() {
    let mut encodings = Encodings::new();
    let rust_language = tree_sitter_rust::LANGUAGE.into();
    let go_language = tree_sitter_go::LANGUAGE.into();

    // Both patterns match "test.rs"; the one registered first wins.
    encodings
        .add("s$", &rust_language, "Rust")
        .add("rs$", &go_language, "Go");

    let result = encodings.match_file("test.rs");
    assert!(result.is_some());
    assert_eq!(result.unwrap().name, "Rust");
}

#[test]
fn match_file_with_complex_path() {
    let mut encodings = Encodings::new();
    let rust_language = tree_sitter_rust::LANGUAGE.into();

    encodings.add("rs$", &rust_language, "Rust");

    let result = encodings.match_file("/very/long/path/to/src/main.rs");
    assert!(result.is_some());
    assert_eq!(result.unwrap().name, "Rust");
}

#[test]
fn match_file_with_case_sensitive_pattern() {
    let mut encodings = Encodings::new();
    let rust_language = tree_sitter_rust::LANGUAGE.into();

    encodings.add("rs$", &rust_language, "Rust");

    let result = encodings.match_file("src/main.RS");
    assert!(result.is_none());
}

#[test]
fn match_file_with_case_insensitive_pattern() {
    let mut encodings = Encodings::new();
    let rust_language = tree_sitter_rust::LANGUAGE.into();

    encodings.add("(?i)rs$", &rust_language, "Rust");

    let result = encodings.match_file("src/main.RS");
    assert!(result.is_some());
    assert_eq!(result.unwrap().name, "Rust");
}

#[test]
fn first_match_is_by_registration_order_both_ways() {
    let rust_language = tree_sitter_rust::LANGUAGE.into();
    let go_language = tree_sitter_go::LANGUAGE.into();
    let mut encodings = Encodings::new();
    encodings
        .add("rs$", &go_language, "Go")
        .add("s$", &rust_language, "Rust");
    assert_eq!(encodings.match_file("a.rs").unwrap().name, "Go");
    assert_eq!(encodings.match_index("a.rs"), Some(0));
    assert_eq!(encodings.match_index("a.css"), Some(1));
    assert_eq!(encodings.match_index("a.txt"), None);
}

#[test]
fn matching_looks_at_the_extension_only() {
    let rust_language = tree_sitter_rust::LANGUAGE.into();
    let mut encodings = Encodings::new();
    encodings.add("rs$", &rust_language, "Rust");
    assert!(encodings.match_file("a.rs").is_some());
    assert!(encodings.match_file("dir.rs/file.rs").is_some());
    assert!(encodings.match_file("dir.rs/file").is_none());
    assert!(encodings.match_file("rs").is_none());
    assert!(encodings.match_file(".rs").is_none());
}

#[test]
fn try_add_refuses_a_broken_pattern() {
    let rust_language = tree_sitter_rust::LANGUAGE.into();
    let mut encodings = Encodings::new();
    assert!(!encodings.try_add("(rs$", &rust_language, "Rust"));
    assert_eq!(encodings.len(), 0);
    assert!(encodings.try_add("rs$", &rust_language, "Rust"));
    assert_eq!(encodings.len(), 1);
}

#[test]
fn match_file_or_error_names_the_extension() {
    let rust_language = tree_sitter_rust::LANGUAGE.into();
    let mut encodings = Encodings::new();
    encodings.add("rs$", &rust_language, "Rust");
    assert_eq!(encodings.match_file_or_error("a.rs").unwrap().name, "Rust");
    match encodings.match_file_or_error("a.txt") {
        Err(AstgenError::LanguageNotSupported(ext)) => assert_eq!(ext, "txt"),
        _ => panic!("expected an unsupported language"),
    }
    match encodings.match_file_or_error("Makefile") {
        Err(AstgenError::LanguageNotSupported(ext)) => assert_eq!(ext, "unknown"),
        _ => panic!("expected an unsupported language"),
    }
}
