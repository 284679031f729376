use astgen::error::{decimal, AstgenError};
use std::io;

#[test]
fn test_io_error_conversion() {
    let err = io::Error::new(io::ErrorKind::Other, "fail");
    let astgen_err: AstgenError = err.into();
    match astgen_err {
        AstgenError::IoError(_) => {}
        _ => panic!("Expected IoError variant"),
    }
}

#[test]
fn test_display_format() {
    let err = AstgenError::ParseError("bad parse".to_string());
    assert_eq!(err.message(), "Parse error: bad parse");
}

#[test]
fn every_variant_has_its_message() {
    assert_eq!(
        AstgenError::IoError(io::Error::new(io::ErrorKind::Other, "fail")).message(),
        "File system error: fail"
    );
    assert_eq!(
        AstgenError::LanguageNotSupported("txt".to_string()).message(),
        "Unsupported file type: .txt\n\nSupported extensions: .rs, .java, .cs, .go, .py, .ts, .tsx, .js, .rb\nUse --list-languages to see all supported languages."
    );
    assert_eq!(AstgenError::InvalidInput("x".to_string()).message(), "Invalid input: x");
    assert_eq!(
        AstgenError::TreeSitterError(tree_sitter::LanguageError::Version(3)).message(),
        "Parser error: Version(3)"
    );
    assert_eq!(
        AstgenError::SerializationError("x".to_string()).message(),
        "Output formatting error: x"
    );
    assert_eq!(AstgenError::ConfigError("x".to_string()).message(), "Configuration error: x");
    assert_eq!(
        AstgenError::FileTooLarge { path: "a.rs".to_string(), size: 2000001, limit: 2000000 }
            .message(),
        "File too large: a.rs (2000001 bytes)\nMaximum allowed size: 2000000 bytes\nUse --max-file-size to increase the limit."
    );
    assert_eq!(
        AstgenError::UnsupportedFileType("a.txt".to_string()).message(),
        "Cannot determine language for file: a.txt\nSupported extensions: .rs, .java, .cs, .go, .py, .ts, .tsx, .js, .rb"
    );
}

#[test]
fn language_error_converts() {
    let e: AstgenError = tree_sitter::LanguageError::Version(1).into();
    assert!(matches!(e, AstgenError::TreeSitterError(_)));
}

#[test]
fn decimal_writes_numbers() {
    assert_eq!(decimal(0), "0");
    assert_eq!(decimal(7), "7");
    assert_eq!(decimal(10), "10");
    assert_eq!(decimal(1234567890), "1234567890");
    assert_eq!(decimal(usize::MAX), usize::MAX.to_string());
}

#[test]
fn json_error_converts() {
    let failure = serde_json::from_str::<serde_json::Value>("{").unwrap_err();
    let shown = failure.to_string();
    let e: AstgenError = failure.into();
    match e {
        AstgenError::SerializationError(msg) => assert_eq!(msg, shown),
        _ => panic!("expected a serialization error"),
    }
}

#[test]
fn invalid_encoding_has_its_message() {
    assert_eq!(
        AstgenError::InvalidEncoding("a.rs".to_string()).message(),
        "Invalid input: File contains invalid UTF-8: a.rs\nTry converting the file to UTF-8 encoding first."
    );
}
