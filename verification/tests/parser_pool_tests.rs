use astgen::parser_pool::ParserPool;
use tree_sitter_rust::LANGUAGE as RUST_LANGUAGE;

#[test]
fn test_get_and_return_parser() {
    let mut pool = ParserPool::new();
    let rust_lang = RUST_LANGUAGE.into();
    let parser = pool.get_parser("Rust", &rust_lang).unwrap();
    pool.return_parser("Rust", parser);
    let _ = pool.get_parser("Rust", &rust_lang).unwrap();
}

#[test]
fn test_pool_size_limit() {
    let mut pool = ParserPool::new();
    let rust_lang = RUST_LANGUAGE.into();
    let mut parsers = Vec::new();
    for _ in 0..15 {
        let parser = pool.get_parser("Rust", &rust_lang).unwrap();
        parsers.push(parser);
    }
    for parser in parsers {
        pool.return_parser("Rust", parser);
    }
    let entry = pool.idle_parsers("Rust").unwrap();
    assert!(entry <= 10);
}

#[test]
fn pool_counts_what_waits() {
    let mut pool = ParserPool::default();
    let rust_lang = RUST_LANGUAGE.into();
    assert_eq!(pool.idle_parsers("Rust"), None);
    // a parser for a name that was never asked for is dropped
    pool.return_parser("Rust", tree_sitter::Parser::new());
    assert_eq!(pool.idle_parsers("Rust"), None);
    let a = pool.get_parser("Rust", &rust_lang).unwrap();
    assert_eq!(pool.idle_parsers("Rust"), Some(0));
    let b = pool.get_parser("Rust", &rust_lang).unwrap();
    pool.return_parser("Rust", a);
    assert_eq!(pool.idle_parsers("Rust"), Some(1));
    pool.return_parser("Rust", b);
    assert_eq!(pool.idle_parsers("Rust"), Some(2));
    assert_eq!(pool.idle_parsers("Go"), None);
    let mut c = pool.get_parser("Rust", &rust_lang).unwrap();
    assert_eq!(pool.idle_parsers("Rust"), Some(1));
    assert!(c.parse("fn main() {}", None).is_some());
    for _ in 0..12 {
        pool.return_parser("Rust", tree_sitter::Parser::new());
    }
    assert_eq!(pool.idle_parsers("Rust"), Some(10));
}
