//! The error type of the library, and the text of each error.

use vstd::prelude::*;
use vstd::string::*;

verus! {

/// `std::io::Error`, held as an opaque value.
#[verifier::external_type_specification]
#[verifier::external_body]
pub struct ExIoError(std::io::Error);

/// `tree_sitter::LanguageError`, held as an opaque value.
#[verifier::external_type_specification]
#[verifier::external_body]
pub struct ExLanguageError(tree_sitter::LanguageError);

/// `serde_json::Error`, held as an opaque value.
#[verifier::external_type_specification]
#[verifier::external_body]
pub struct ExJsonError(serde_json::Error);

/// Everything that can go wrong while a file is classified, read, parsed or
/// written out.
#[derive(Debug)]
pub enum AstgenError {
    IoError(std::io::Error),
    ParseError(String),
    LanguageNotSupported(String),
    InvalidInput(String),
    /// A file that is not valid UTF-8 text; the path of the file.
    InvalidEncoding(String),
    TreeSitterError(tree_sitter::LanguageError),
    SerializationError(String),
    ConfigError(String),
    FileTooLarge { path: String, size: usize, limit: usize },
    UnsupportedFileType(String),
}

/// The text of one decimal digit.
pub open spec fn digit_text(d: nat) -> Seq<char> {
    if d == 0 {
        "0"@
    } else if d == 1 {
        "1"@
    } else if d == 2 {
        "2"@
    } else if d == 3 {
        "3"@
    } else if d == 4 {
        "4"@
    } else if d == 5 {
        "5"@
    } else if d == 6 {
        "6"@
    } else if d == 7 {
        "7"@
    } else if d == 8 {
        "8"@
    } else {
        "9"@
    }
}

/// A number written in decimal, without sign or leading zeros.
pub open spec fn decimal_text(n: nat) -> Seq<char>
    decreases n,
{
    if n < 10 {
        digit_text(n)
    } else {
        decimal_text(n / 10) + digit_text(n % 10)
    }
}

fn digit_str(d: usize) -> (s: &'static str)
    requires
        d < 10,
    ensures
        s@ == digit_text(d as nat),
{
    if d == 0 {
        "0"
    } else if d == 1 {
        "1"
    } else if d == 2 {
        "2"
    } else if d == 3 {
        "3"
    } else if d == 4 {
        "4"
    } else if d == 5 {
        "5"
    } else if d == 6 {
        "6"
    } else if d == 7 {
        "7"
    } else if d == 8 {
        "8"
    } else {
        "9"
    }
}

/// Writes `n` in decimal.
pub fn decimal(n: usize) -> (s: String)
    ensures
        s@ == decimal_text(n as nat),
    decreases n,
{
    if n < 10 {
        String::from_str(digit_str(n))
    } else {
        decimal(n / 10).concat(digit_str(n % 10))
    }
}

/// The text that the standard library prints for an I/O error. It depends on
/// the operating system, so nothing is claimed of it.
#[verifier::external_body]
fn io_error_text(error: &std::io::Error) -> (text: String) {
    error.to_string()
}

/// The debug form of a `tree_sitter::LanguageError`.
pub uninterp spec fn language_error_debug(error: tree_sitter::LanguageError) -> Seq<char>;

/// The text that a `serde_json::Error` displays.
pub uninterp spec fn json_error_display(error: serde_json::Error) -> String;

/// Formats tree-sitter's `LanguageError` with its derived `Debug`. The
/// contract only gives the text its name.
#[verifier::external_body]
fn language_error_text(error: &tree_sitter::LanguageError) -> (text: String)
    ensures
        text@ == language_error_debug(*error),
{
    format!("{:?}", error)
}

/// Formats a `serde_json::Error` with its `Display`. The contract only gives
/// the text its name.
#[verifier::external_body]
fn json_error_text(error: &serde_json::Error) -> (text: String)
    ensures
        text == json_error_display(*error),
{
    error.to_string()
}

impl AstgenError {
    /// What precedes the variable part of the message.
    pub open spec fn message_prefix(self) -> Seq<char> {
        match self {
            AstgenError::IoError(_) => "File system error: "@,
            AstgenError::ParseError(_) => "Parse error: "@,
            AstgenError::LanguageNotSupported(_) => "Unsupported file type: ."@,
            AstgenError::InvalidInput(_) => "Invalid input: "@,
            AstgenError::InvalidEncoding(_) => "Invalid input: File contains invalid UTF-8: "@,
            AstgenError::TreeSitterError(_) => "Parser error: "@,
            AstgenError::SerializationError(_) => "Output formatting error: "@,
            AstgenError::ConfigError(_) => "Configuration error: "@,
            AstgenError::FileTooLarge { .. } => "File too large: "@,
            AstgenError::UnsupportedFileType(_) => "Cannot determine language for file: "@,
        }
    }

    /// The whole message. For an I/O error only the prefix is fixed.
    pub open spec fn message_text(self) -> Seq<char> {
        match self {
            AstgenError::IoError(_) => self.message_prefix(),
            AstgenError::ParseError(msg) => self.message_prefix() + msg@,
            AstgenError::LanguageNotSupported(ext) => self.message_prefix() + ext@
                + "\n\nSupported extensions: .rs, .java, .cs, .go, .py, .ts, .tsx, .js, .rb\nUse --list-languages to see all supported languages."@,
            AstgenError::InvalidInput(msg) => self.message_prefix() + msg@,
            AstgenError::InvalidEncoding(path) => self.message_prefix() + path@
                + "\nTry converting the file to UTF-8 encoding first."@,
            AstgenError::TreeSitterError(err) => self.message_prefix() + language_error_debug(err),
            AstgenError::SerializationError(msg) => self.message_prefix() + msg@,
            AstgenError::ConfigError(msg) => self.message_prefix() + msg@,
            AstgenError::FileTooLarge { path, size, limit } => self.message_prefix() + path@
                + " ("@ + decimal_text(size as nat) + " bytes)\nMaximum allowed size: "@
                + decimal_text(limit as nat)
                + " bytes\nUse --max-file-size to increase the limit."@,
            AstgenError::UnsupportedFileType(path) => self.message_prefix() + path@
                + "\nSupported extensions: .rs, .java, .cs, .go, .py, .ts, .tsx, .js, .rb"@,
        }
    }

    /// The message shown to the user. For an I/O error the message is the
    /// fixed prefix followed by the text that the operating system gives
    /// the error; for every other variant it is exactly `message_text`.
    pub fn message(&self) -> (text: String)
        ensures
            self.message_prefix().is_prefix_of(text@),
            !(self is IoError) ==> text@ == self.message_text(),
    {
        match self {
            AstgenError::IoError(err) => {
                let detail = io_error_text(err);
                String::from_str("File system error: ").concat(detail.as_str())
            },
            AstgenError::ParseError(msg) => String::from_str("Parse error: ").concat(msg.as_str()),
            AstgenError::LanguageNotSupported(ext) => String::from_str(
                "Unsupported file type: .",
            ).concat(ext.as_str()).concat(
                "\n\nSupported extensions: .rs, .java, .cs, .go, .py, .ts, .tsx, .js, .rb\nUse --list-languages to see all supported languages.",
            ),
            AstgenError::InvalidInput(msg) => String::from_str("Invalid input: ").concat(
                msg.as_str(),
            ),
            AstgenError::InvalidEncoding(path) => String::from_str(
                "Invalid input: File contains invalid UTF-8: ",
            ).concat(path.as_str()).concat("\nTry converting the file to UTF-8 encoding first."),
            AstgenError::TreeSitterError(err) => {
                let detail = language_error_text(err);
                String::from_str("Parser error: ").concat(detail.as_str())
            },
            AstgenError::SerializationError(msg) => String::from_str(
                "Output formatting error: ",
            ).concat(msg.as_str()),
            AstgenError::ConfigError(msg) => String::from_str("Configuration error: ").concat(
                msg.as_str(),
            ),
            AstgenError::FileTooLarge { path, size, limit } => {
                let size_text = decimal(*size);
                let limit_text = decimal(*limit);
                String::from_str("File too large: ").concat(path.as_str()).concat(" (").concat(
                    size_text.as_str(),
                ).concat(" bytes)\nMaximum allowed size: ").concat(limit_text.as_str()).concat(
                    " bytes\nUse --max-file-size to increase the limit.",
                )
            },
            AstgenError::UnsupportedFileType(path) => String::from_str(
                "Cannot determine language for file: ",
            ).concat(path.as_str()).concat(
                "\nSupported extensions: .rs, .java, .cs, .go, .py, .ts, .tsx, .js, .rb",
            ),
        }
    }
}

impl From<std::io::Error> for AstgenError {
    fn from(error: std::io::Error) -> (e: AstgenError) {
        AstgenError::IoError(error)
    }
}

impl vstd::std_specs::convert::FromSpecImpl<std::io::Error> for AstgenError {
    open spec fn obeys_from_spec() -> bool {
        true
    }

    open spec fn from_spec(error: std::io::Error) -> AstgenError {
        AstgenError::IoError(error)
    }
}

impl From<tree_sitter::LanguageError> for AstgenError {
    fn from(error: tree_sitter::LanguageError) -> (e: AstgenError) {
        AstgenError::TreeSitterError(error)
    }
}

impl vstd::std_specs::convert::FromSpecImpl<tree_sitter::LanguageError> for AstgenError {
    open spec fn obeys_from_spec() -> bool {
        true
    }

    open spec fn from_spec(error: tree_sitter::LanguageError) -> AstgenError {
        AstgenError::TreeSitterError(error)
    }
}

impl From<serde_json::Error> for AstgenError {
    fn from(error: serde_json::Error) -> (e: AstgenError) {
        AstgenError::SerializationError(json_error_text(&error))
    }
}

impl vstd::std_specs::convert::FromSpecImpl<serde_json::Error> for AstgenError {
    open spec fn obeys_from_spec() -> bool {
        true
    }

    open spec fn from_spec(error: serde_json::Error) -> AstgenError {
        AstgenError::SerializationError(json_error_display(error))
    }
}

/// The serialization error that stands for a failure of the JSON library: it
/// carries the text that the failure displays.
pub fn serialization_error(error: &serde_json::Error) -> (e: AstgenError)
    ensures
        e == AstgenError::SerializationError(json_error_display(*error)),
{
    AstgenError::SerializationError(json_error_text(error))
}

} // verus!
