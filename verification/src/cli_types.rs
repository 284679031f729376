//! The options of a run, and the rules that they must meet.

use crate::error::{json_error_display, serialization_error, AstgenError};
use vstd::prelude::*;
use vstd::string::*;

verus! {

/// How a parsed document is written out.
#[derive(Clone, Copy, Debug, PartialEq, Eq, Structural)]
pub enum OutputFormat {
    Json,
    PrettyJson,
    Yaml,
}

/// `serde_yaml::Error`, held as an opaque value.
#[verifier::external_type_specification]
#[verifier::external_body]
pub struct ExYamlError(serde_yaml::Error);

/// What `serde_json::from_str` makes of a text that is read as a
/// `serde_json::Value`: the value, or the error for a text that is no JSON.
pub uninterp spec fn parsed_json(text: Seq<char>) -> Result<serde_json::Value, serde_json::Error>;

/// The text that `serde_json::to_string_pretty` writes for a
/// `serde_json::Value`.
pub uninterp spec fn pretty_text(value: serde_json::Value) -> Seq<char>;

/// What `serde_yaml::to_string` makes of a `serde_json::Value`: the YAML
/// text, or the error of the YAML library.
pub uninterp spec fn yaml_text(value: serde_json::Value) -> Result<String, serde_yaml::Error>;

/// Calls `serde_json::from_str` for a `serde_json::Value`. The contract
/// claims that the answer depends on the text alone, and gives it its name.
#[verifier::external_body]
fn parse_json(text: &str) -> (value: Result<serde_json::Value, serde_json::Error>)
    ensures
        value == parsed_json(text@),
{
    serde_json::from_str(text)
}

/// Calls `serde_json::to_string_pretty` on a `serde_json::Value`. The
/// contract claims that a text comes back, since a value of nulls, booleans,
/// numbers, texts, arrays and objects with text keys has nothing that the
/// writer refuses, and that the text depends on the value alone; it gives
/// the text its name.
#[verifier::external_body]
pub(crate) fn value_to_pretty(value: &serde_json::Value) -> (text: Result<
    String,
    serde_json::Error,
>)
    ensures
        text is Ok,
        text matches Ok(t) ==> t@ == pretty_text(*value),
{
    serde_json::to_string_pretty(value)
}

/// Calls `serde_yaml::to_string` on a `serde_json::Value`. The contract
/// claims that the answer depends on the value alone, and gives it its name.
#[verifier::external_body]
fn value_to_yaml(value: &serde_json::Value) -> (text: Result<String, serde_yaml::Error>)
    ensures
        text == yaml_text(*value),
{
    serde_yaml::to_string(value)
}

/// The text that a `serde_yaml::Error` displays.
pub uninterp spec fn yaml_error_display(error: serde_yaml::Error) -> Seq<char>;

/// Formats a `serde_yaml::Error` with its `Display`. The contract only gives
/// the text its name.
#[verifier::external_body]
fn yaml_error_text(error: &serde_yaml::Error) -> (text: String)
    ensures
        text@ == yaml_error_display(*error),
{
    error.to_string()
}

/// The error for a value that could not be written as YAML.
pub fn yaml_failure(detail: &str) -> (e: AstgenError)
    ensures
        e matches AstgenError::SerializationError(msg) && msg@ == "YAML serialization failed: "@
            + detail@,
{
    AstgenError::SerializationError(String::from_str("YAML serialization failed: ").concat(detail))
}

/// What `format_output` owes: the compact form is the document itself; for
/// the other forms the document is read as JSON and written anew, indented
/// or as YAML. A document that is no JSON, and one that the YAML library
/// refuses, is a serialization error with the library's own words.
pub open spec fn is_formatted(
    out: Result<String, AstgenError>,
    json_str: Seq<char>,
    format: OutputFormat,
) -> bool {
    match format {
        OutputFormat::Json => out matches Ok(text) && text@ == json_str,
        OutputFormat::PrettyJson => match parsed_json(json_str) {
            Ok(value) => out matches Ok(text) && text@ == pretty_text(value),
            Err(e) => out == Err::<String, AstgenError>(
                AstgenError::SerializationError(json_error_display(e)),
            ),
        },
        OutputFormat::Yaml => match parsed_json(json_str) {
            Ok(value) => match yaml_text(value) {
                Ok(text) => out == Ok::<String, AstgenError>(text),
                Err(e) => out matches Err(AstgenError::SerializationError(msg)) && msg@
                    == "YAML serialization failed: "@ + yaml_error_display(e),
            },
            Err(e) => out == Err::<String, AstgenError>(
                AstgenError::SerializationError(json_error_display(e)),
            ),
        },
    }
}

/// Writes a compact JSON document in the asked format.
pub fn format_output(json_str: &str, format: &OutputFormat) -> (out: Result<String, AstgenError>)
    ensures
        is_formatted(out, json_str@, *format),
{
    match format {
        OutputFormat::Json => Ok(String::from_str(json_str)),
        OutputFormat::PrettyJson => match parse_json(json_str) {
            Ok(value) => match value_to_pretty(&value) {
                Ok(text) => Ok(text),
                Err(e) => Err(serialization_error(&e)),
            },
            Err(e) => Err(serialization_error(&e)),
        },
        OutputFormat::Yaml => match parse_json(json_str) {
            Ok(value) => match value_to_yaml(&value) {
                Ok(text) => Ok(text),
                Err(e) => Err(yaml_failure(yaml_error_text(&e).as_str())),
            },
            Err(e) => Err(serialization_error(&e)),
        },
    }
}

/// The options of a run. Paths are held as text.
#[derive(Debug)]
pub struct Args {
    /// Files or directories to parse.
    pub files: Vec<String>,
    /// Output format.
    pub format: OutputFormat,
    /// Cut each document after this many bytes.
    pub truncate: Option<usize>,
    /// Show detailed processing information.
    pub verbose: bool,
    /// Suppress progress and warning messages.
    pub quiet: bool,
    /// Number of worker threads.
    pub parallel: Option<usize>,
    /// Show what would be processed without parsing it.
    pub dry_run: bool,
    /// Largest file that is read, in megabytes.
    pub max_file_size: usize,
    /// Follow symbolic links while walking directories.
    pub follow_links: bool,
    /// Deepest directory level that is walked.
    pub max_depth: usize,
    /// List the supported languages and stop.
    pub list_languages: bool,
    /// Path of the configuration file.
    pub config: Option<String>,
    /// Keep only files that match one of these patterns.
    pub include_patterns: Vec<String>,
    /// Drop files that match one of these patterns.
    pub exclude_patterns: Vec<String>,
    /// Write documents to this file instead of standard output.
    pub output: Option<String>,
    /// Show a progress bar for directories.
    pub progress: bool,
}

/// The largest thread count that is accepted.
pub const MAX_THREADS: usize = 64;

/// The largest file size limit that is accepted, in megabytes.
pub const MAX_FILE_SIZE_MB: usize = 1000;

/// Whether some pattern of the list is empty.
pub open spec fn has_empty_pattern(patterns: Seq<String>) -> bool {
    exists|i: int| 0 <= i < patterns.len() && (#[trigger] patterns[i])@.len() == 0
}

fn any_empty(patterns: &Vec<String>) -> (found: bool)
    ensures
        found == has_empty_pattern(patterns@),
{
    let mut i: usize = 0;
    while i < patterns.len()
        invariant
            i <= patterns.len(),
            forall|j: int| 0 <= j < i ==> (#[trigger] patterns@[j])@.len() != 0,
        decreases patterns.len() - i,
    {
        if patterns[i].as_str().is_empty() {
            return true;
        }
        i += 1;
    }
    false
}

impl Args {
    /// The complaint about the first rule that the options break, in the
    /// order in which the rules are checked; `None` when they break none.
    /// `missing_output_dir` is the directory of the output file when that
    /// file is set and its directory does not exist.
    pub open spec fn first_violation(self, missing_output_dir: Option<Seq<char>>) -> Option<
        Seq<char>,
    > {
        if self.parallel == Some(0usize) {
            Some(
                "Thread count must be at least 1. Try using --parallel 1 or omit the flag to use default."@,
            )
        } else if self.parallel is Some && self.parallel.unwrap() > MAX_THREADS {
            Some("Thread count cannot exceed 64. Try using a smaller number like --parallel 8."@)
        } else if self.max_file_size == 0 {
            Some("Max file size must be at least 1 MB. Try using --max-file-size 1."@)
        } else if self.max_file_size > MAX_FILE_SIZE_MB {
            Some(
                "Max file size cannot exceed 1000 MB. Try using a smaller limit like --max-file-size 100."@,
            )
        } else if self.max_depth == 0 {
            Some(
                "Max depth must be at least 1. Try using --max-depth 1 or omit the flag to use default."@,
            )
        } else if self.verbose && self.quiet {
            Some("Cannot use both --verbose and --quiet flags together. Choose one or neither."@)
        } else if missing_output_dir is Some {
            Some(
                "Output directory does not exist: "@ + missing_output_dir.unwrap()
                    + ". Create the directory first."@,
            )
        } else if has_empty_pattern(self.include_patterns@) {
            Some("Include pattern cannot be empty. Use a valid glob pattern like '*.rs'."@)
        } else if has_empty_pattern(self.exclude_patterns@) {
            Some("Exclude pattern cannot be empty. Use a valid glob pattern like 'target/*'."@)
        } else {
            None
        }
    }

    /// Checks the options before any file is touched. The answer is `Ok`
    /// exactly when no rule is broken; otherwise it is the configuration
    /// error whose message is the complaint about the first broken rule.
    pub fn validate(&self, missing_output_dir: Option<&str>) -> (checked: Result<(), AstgenError>)
        ensures
            checked.is_ok() == (self.first_violation(
                match missing_output_dir {
                    Some(d) => Some(d@),
                    None => None,
                },
            ) is None),
            checked matches Err(e) ==> e matches AstgenError::ConfigError(msg) && Some(msg@)
                == self.first_violation(
                match missing_output_dir {
                    Some(d) => Some(d@),
                    None => None,
                },
            ),
    {
        if let Some(threads) = self.parallel {
            if threads == 0 {
                return Err(
                    AstgenError::ConfigError(
                        String::from_str(
                            "Thread count must be at least 1. Try using --parallel 1 or omit the flag to use default.",
                        ),
                    ),
                );
            }
            if threads > MAX_THREADS {
                return Err(
                    AstgenError::ConfigError(
                        String::from_str(
                            "Thread count cannot exceed 64. Try using a smaller number like --parallel 8.",
                        ),
                    ),
                );
            }
        }
        if self.max_file_size == 0 {
            return Err(
                AstgenError::ConfigError(
                    String::from_str(
                        "Max file size must be at least 1 MB. Try using --max-file-size 1.",
                    ),
                ),
            );
        }
        if self.max_file_size > MAX_FILE_SIZE_MB {
            return Err(
                AstgenError::ConfigError(
                    String::from_str(
                        "Max file size cannot exceed 1000 MB. Try using a smaller limit like --max-file-size 100.",
                    ),
                ),
            );
        }
        if self.max_depth == 0 {
            return Err(
                AstgenError::ConfigError(
                    String::from_str(
                        "Max depth must be at least 1. Try using --max-depth 1 or omit the flag to use default.",
                    ),
                ),
            );
        }
        if self.verbose && self.quiet {
            return Err(
                AstgenError::ConfigError(
                    String::from_str(
                        "Cannot use both --verbose and --quiet flags together. Choose one or neither.",
                    ),
                ),
            );
        }
        if let Some(dir) = missing_output_dir {
            return Err(
                AstgenError::ConfigError(
                    String::from_str("Output directory does not exist: ").concat(dir).concat(
                        ". Create the directory first.",
                    ),
                ),
            );
        }
        if any_empty(&self.include_patterns) {
            return Err(
                AstgenError::ConfigError(
                    String::from_str(
                        "Include pattern cannot be empty. Use a valid glob pattern like '*.rs'.",
                    ),
                ),
            );
        }
        if any_empty(&self.exclude_patterns) {
            return Err(
                AstgenError::ConfigError(
                    String::from_str(
                        "Exclude pattern cannot be empty. Use a valid glob pattern like 'target/*'.",
                    ),
                ),
            );
        }
        Ok(())
    }
}

} // verus!
