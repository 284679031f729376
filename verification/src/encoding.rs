//! One binding of the registry: an extension pattern, a grammar and a display
//! name.

use vstd::prelude::*;

verus! {

/// `regex::Regex`, a compiled regular expression, held as an opaque value.
#[verifier::external_type_specification]
#[verifier::external_body]
pub struct ExRegex(regex::Regex);

/// `tree_sitter::Language`, the handle of a grammar, held as an opaque value.
#[verifier::external_type_specification]
#[verifier::external_body]
pub struct ExLanguage(tree_sitter::Language);

/// Whether the regex engine accepts `pattern` as a regular expression.
pub uninterp spec fn regex_compiles(pattern: Seq<char>) -> bool;

/// The pattern text that a compiled expression was built from.
pub uninterp spec fn regex_source(expression: regex::Regex) -> Seq<char>;

/// Whether the expression written as `pattern` matches somewhere in `text`.
pub uninterp spec fn regex_is_match(pattern: Seq<char>, text: Seq<char>) -> bool;

/// The extension of a path as the standard library's `Path::extension` gives
/// it, under the path syntax of the platform the crate is built for: the part
/// of the final component behind its last dot, if there is one.
pub uninterp spec fn path_extension(path: Seq<char>) -> Option<Seq<char>>;

/// Calls `regex::Regex::new`. The contract claims that whether it succeeds
/// depends on the pattern text alone, and that the compiled expression
/// remembers the text it was built from (`Regex::as_str` returns it).
#[verifier::external_body]
fn compile_regex(pattern: &str) -> (compiled: Option<regex::Regex>)
    ensures
        compiled.is_some() == regex_compiles(pattern@),
        compiled matches Some(expression) ==> regex_source(expression) == pattern@,
{
    regex::Regex::new(pattern).ok()
}

/// Calls `regex::Regex::is_match`. The contract claims that the answer
/// depends only on the pattern the expression was built from and on the text.
#[verifier::external_body]
fn regex_matches(expression: &regex::Regex, text: &str) -> (found: bool)
    ensures
        found == regex_is_match(regex_source(*expression), text@),
{
    expression.is_match(text)
}

/// Calls `std::path::Path::extension` on the path written in `file_path`, and
/// hands the extension back as text. The contract only gives the result its
/// name.
#[verifier::external_body]
fn extension_of<'p>(file_path: &'p str) -> (extension: Option<&'p str>)
    ensures
        extension.is_some() == path_extension(file_path@).is_some(),
        extension matches Some(e) ==> path_extension(file_path@) == Some(e@),
{
    std::path::Path::new(file_path).extension().and_then(|e| e.to_str())
}

/// Whether `pattern` can be used as an extension pattern.
pub fn pattern_compiles(pattern: &str) -> (ok: bool)
    ensures
        ok == regex_compiles(pattern@),
{
    compile_regex(pattern).is_some()
}

/// The extension of `file_path`, if it has one.
pub fn file_extension<'p>(file_path: &'p str) -> (extension: Option<&'p str>)
    ensures
        extension.is_some() == path_extension(file_path@).is_some(),
        extension matches Some(e) ==> path_extension(file_path@) == Some(e@),
{
    extension_of(file_path)
}

/// A binding from an extension pattern to a grammar and its display name.
#[derive(Debug)]
pub struct Encoding<'a> {
    extension_pattern: regex::Regex,
    pub language: &'a tree_sitter::Language,
    pub name: String,
}

impl<'a> Encoding<'a> {
    /// The text of the extension pattern.
    pub closed spec fn pattern(&self) -> Seq<char> {
        regex_source(self.extension_pattern)
    }

    /// The display name of the language.
    pub closed spec fn display_name(&self) -> Seq<char> {
        self.name@
    }

    /// The grammar that parses files of the language.
    pub closed spec fn grammar(&self) -> tree_sitter::Language {
        *self.language
    }

    /// The display name of the language.
    pub fn name(&self) -> (name: &str)
        ensures
            name@ == self.display_name(),
    {
        self.name.as_str()
    }

    /// The grammar that parses files of the language.
    pub fn language(&self) -> (language: &'a tree_sitter::Language)
        ensures
            *language == self.grammar(),
    {
        self.language
    }

    /// Whether the binding applies to an extension: a path without extension
    /// never matches, and a path with one matches when the pattern matches
    /// the extension.
    pub open spec fn accepts(&self, extension: Option<Seq<char>>) -> bool {
        match extension {
            Some(e) => regex_is_match(self.pattern(), e),
            None => false,
        }
    }

    /// Whether the binding applies to a file path: it is judged by the
    /// extension alone.
    pub open spec fn spec_matches(&self, file_path: Seq<char>) -> bool {
        self.accepts(path_extension(file_path))
    }

    /// Builds a binding from a pattern that the regex engine accepts.
    pub fn new(extension_pattern: &str, x: &'a tree_sitter::Language, name: &str) -> (encoding:
        Self)
        requires
            regex_compiles(extension_pattern@),
        ensures
            encoding.pattern() == extension_pattern@,
            encoding.grammar() == *x,
            encoding.display_name() == name@,
    {
        let compiled = compile_regex(extension_pattern);
        Encoding { extension_pattern: compiled.unwrap(), language: x, name: name.to_owned() }
    }

    /// Builds a binding, or returns `None` when the pattern is not a regular
    /// expression.
    pub fn try_new(extension_pattern: &str, x: &'a tree_sitter::Language, name: &str) -> (encoding:
        Option<Self>)
        ensures
            encoding.is_some() == regex_compiles(extension_pattern@),
            encoding matches Some(e) ==> e.pattern() == extension_pattern@ && e.grammar() == *x
                && e.display_name() == name@,
    {
        if pattern_compiles(extension_pattern) {
            Some(Encoding::new(extension_pattern, x, name))
        } else {
            None
        }
    }

    /// Whether the binding applies to an extension that was already taken
    /// from a path.
    pub fn matches_extension(&self, extension: Option<&str>) -> (found: bool)
        ensures
            found == self.accepts(
                match extension {
                    Some(e) => Some(e@),
                    None => None,
                },
            ),
    {
        match extension {
            Some(e) => regex_matches(&self.extension_pattern, e),
            None => false,
        }
    }

    /// Whether the binding applies to `file_path`.
    pub fn matches(&self, file_path: &str) -> (found: bool)
        ensures
            found == self.spec_matches(file_path@),
    {
        self.matches_extension(extension_of(file_path))
    }
}

} // verus!
