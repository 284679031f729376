//! The supported languages: their grammars, the default registry, and the
//! table that lists them.

use crate::encoding::regex_compiles;
use crate::encoding::pattern_compiles;
use crate::encodings::Encodings;
use vstd::prelude::*;
use vstd::string::*;
use vstd::utf8::*;

verus! {

/// What is known of one supported language.
#[derive(Debug)]
pub struct LanguageInfo {
    pub name: &'static str,
    pub extensions: Vec<&'static str>,
    pub version: &'static str,
}

/// Mathematical model of a [`LanguageInfo`].
pub struct LanguageRow {
    pub name: Seq<char>,
    pub extensions: Seq<Seq<char>>,
    pub version: Seq<char>,
}

impl View for LanguageInfo {
    type V = LanguageRow;

    open spec fn view(&self) -> LanguageRow {
        LanguageRow {
            name: self.name@,
            extensions: Seq::new(self.extensions@.len(), |i: int| self.extensions@[i]@),
            version: self.version@,
        }
    }
}

/// The version of the Rust grammar that the library is built with.
pub const TREE_SITTER_RUST_VERSION: &'static str = "0.24.2";

/// The version of the Java grammar that the library is built with.
pub const TREE_SITTER_JAVA_VERSION: &'static str = "0.23.5";

/// The version of the C# grammar that the library is built with.
pub const TREE_SITTER_C_SHARP_VERSION: &'static str = "0.23.5";

/// The version of the Go grammar that the library is built with.
pub const TREE_SITTER_GO_VERSION: &'static str = "0.25.0";

/// The version of the Python grammar that the library is built with.
pub const TREE_SITTER_PYTHON_VERSION: &'static str = "0.25.0";

/// The version of the TypeScript grammar that the library is built with.
pub const TREE_SITTER_TYPESCRIPT_VERSION: &'static str = "0.23.2";

/// The version of the JavaScript grammar that the library is built with.
pub const TREE_SITTER_JAVASCRIPT_VERSION: &'static str = "0.25.0";

/// The version of the Ruby grammar that the library is built with.
pub const TREE_SITTER_RUBY_VERSION: &'static str = "0.23.1";

/// The version of the C grammar that the library is built with.
pub const TREE_SITTER_C_VERSION: &'static str = "0.24.2";

/// The version of the C++ grammar that the library is built with.
pub const TREE_SITTER_CPP_VERSION: &'static str = "0.23.4";

/// The version of the Bash grammar that the library is built with.
pub const TREE_SITTER_BASH_VERSION: &'static str = "0.25.1";

/// The version of the JSON grammar that the library is built with.
pub const TREE_SITTER_JSON_VERSION: &'static str = "0.24.8";

/// The version of the HTML grammar that the library is built with.
pub const TREE_SITTER_HTML_VERSION: &'static str = "0.23.2";

/// The version of the CSS grammar that the library is built with.
pub const TREE_SITTER_CSS_VERSION: &'static str = "0.25.0";

/// The version of the YAML grammar that the library is built with.
pub const TREE_SITTER_YAML_VERSION: &'static str = "0.7.2";

/// The version of the Swift grammar that the library is built with.
pub const TREE_SITTER_SWIFT_VERSION: &'static str = "0.7.4";

/// The version of the Scala grammar that the library is built with.
pub const TREE_SITTER_SCALA_VERSION: &'static str = "0.26.3";

/// The version of the Lua grammar that the library is built with.
pub const TREE_SITTER_LUA_VERSION: &'static str = "0.5.0";

/// The version of the HCL grammar that the library is built with.
pub const TREE_SITTER_HCL_VERSION: &'static str = "1.1.0";

/// The version of the GraphQL grammar that the library is built with.
pub const TREE_SITTER_GRAPHQL_VERSION: &'static str = "0.3.0";

/// The number of supported languages.
pub const LANGUAGE_COUNT: usize = 21;

/// The number of bindings in the default registry.
pub const BINDING_COUNT: usize = 23;

/// The display name of the language in row `i` of the table.
pub open spec fn language_name(i: int) -> Seq<char> {
    if i == 0 {
        "Rust"@
    } else if i == 1 {
        "Java"@
    } else if i == 2 {
        "C#"@
    } else if i == 3 {
        "Go"@
    } else if i == 4 {
        "Python"@
    } else if i == 5 {
        "TypeScript"@
    } else if i == 6 {
        "TSX"@
    } else if i == 7 {
        "JavaScript"@
    } else if i == 8 {
        "Ruby"@
    } else if i == 9 {
        "C"@
    } else if i == 10 {
        "C++"@
    } else if i == 11 {
        "Bash"@
    } else if i == 12 {
        "JSON"@
    } else if i == 13 {
        "HTML"@
    } else if i == 14 {
        "CSS"@
    } else if i == 15 {
        "YAML"@
    } else if i == 16 {
        "Swift"@
    } else if i == 17 {
        "Scala"@
    } else if i == 18 {
        "Lua"@
    } else if i == 19 {
        "HCL"@
    } else {
        "GraphQL"@
    }
}

/// The extensions of the language in row `i`, each with its dot.
pub open spec fn language_extensions(i: int) -> Seq<Seq<char>> {
    if i == 0 {
        seq![".rs"@]
    } else if i == 1 {
        seq![".java"@]
    } else if i == 2 {
        seq![".cs"@]
    } else if i == 3 {
        seq![".go"@]
    } else if i == 4 {
        seq![".py"@]
    } else if i == 5 {
        seq![".ts"@]
    } else if i == 6 {
        seq![".tsx"@]
    } else if i == 7 {
        seq![".js"@]
    } else if i == 8 {
        seq![".rb"@]
    } else if i == 9 {
        seq![".c"@, ".h"@]
    } else if i == 10 {
        seq![".cpp"@, ".cc"@, ".cxx"@, ".hpp"@, ".hh"@]
    } else if i == 11 {
        seq![".sh"@, ".bash"@]
    } else if i == 12 {
        seq![".json"@]
    } else if i == 13 {
        seq![".html"@, ".htm"@]
    } else if i == 14 {
        seq![".css"@]
    } else if i == 15 {
        seq![".yml"@, ".yaml"@]
    } else if i == 16 {
        seq![".swift"@]
    } else if i == 17 {
        seq![".scala"@]
    } else if i == 18 {
        seq![".lua"@]
    } else if i == 19 {
        seq![".hcl"@, ".tf"@, ".tfvars"@]
    } else {
        seq![".graphql"@, ".gql"@]
    }
}

/// The grammar version of the language in row `i`.
pub open spec fn language_version(i: int) -> Seq<char> {
    if i == 0 {
        TREE_SITTER_RUST_VERSION@
    } else if i == 1 {
        TREE_SITTER_JAVA_VERSION@
    } else if i == 2 {
        TREE_SITTER_C_SHARP_VERSION@
    } else if i == 3 {
        TREE_SITTER_GO_VERSION@
    } else if i == 4 {
        TREE_SITTER_PYTHON_VERSION@
    } else if i == 5 {
        TREE_SITTER_TYPESCRIPT_VERSION@
    } else if i == 6 {
        TREE_SITTER_TYPESCRIPT_VERSION@
    } else if i == 7 {
        TREE_SITTER_JAVASCRIPT_VERSION@
    } else if i == 8 {
        TREE_SITTER_RUBY_VERSION@
    } else if i == 9 {
        TREE_SITTER_C_VERSION@
    } else if i == 10 {
        TREE_SITTER_CPP_VERSION@
    } else if i == 11 {
        TREE_SITTER_BASH_VERSION@
    } else if i == 12 {
        TREE_SITTER_JSON_VERSION@
    } else if i == 13 {
        TREE_SITTER_HTML_VERSION@
    } else if i == 14 {
        TREE_SITTER_CSS_VERSION@
    } else if i == 15 {
        TREE_SITTER_YAML_VERSION@
    } else if i == 16 {
        TREE_SITTER_SWIFT_VERSION@
    } else if i == 17 {
        TREE_SITTER_SCALA_VERSION@
    } else if i == 18 {
        TREE_SITTER_LUA_VERSION@
    } else if i == 19 {
        TREE_SITTER_HCL_VERSION@
    } else {
        TREE_SITTER_GRAPHQL_VERSION@
    }
}

/// Row `i` of the table of supported languages.
pub open spec fn language_row(i: int) -> LanguageRow {
    LanguageRow {
        name: language_name(i),
        extensions: language_extensions(i),
        version: language_version(i),
    }
}

fn extensions1(a: &'static str) -> (v: Vec<&'static str>)
    ensures
        v@ == seq![a],
{
    let mut v: Vec<&'static str> = Vec::new();
    v.push(a);
    v
}

fn extensions2(a: &'static str, b: &'static str) -> (v: Vec<&'static str>)
    ensures
        v@ == seq![a, b],
{
    let mut v = extensions1(a);
    v.push(b);
    v
}

fn extensions3(a: &'static str, b: &'static str, c: &'static str) -> (v: Vec<&'static str>)
    ensures
        v@ == seq![a, b, c],
{
    let mut v = extensions2(a, b);
    v.push(c);
    v
}

fn extensions5(
    a: &'static str,
    b: &'static str,
    c: &'static str,
    d: &'static str,
    e: &'static str,
) -> (v: Vec<&'static str>)
    ensures
        v@ == seq![a, b, c, d, e],
{
    let mut v = extensions3(a, b, c);
    v.push(d);
    v.push(e);
    v
}

/// Row `i` of the table of supported languages.
fn language_info(i: usize) -> (info: LanguageInfo)
    requires
        i < LANGUAGE_COUNT,
    ensures
        info@ == language_row(i as int),
{
    let info = if i == 0 {
        LanguageInfo { name: "Rust", extensions: extensions1(".rs"), version: TREE_SITTER_RUST_VERSION }
    } else if i == 1 {
        LanguageInfo { name: "Java", extensions: extensions1(".java"), version: TREE_SITTER_JAVA_VERSION }
    } else if i == 2 {
        LanguageInfo { name: "C#", extensions: extensions1(".cs"), version: TREE_SITTER_C_SHARP_VERSION }
    } else if i == 3 {
        LanguageInfo { name: "Go", extensions: extensions1(".go"), version: TREE_SITTER_GO_VERSION }
    } else if i == 4 {
        LanguageInfo { name: "Python", extensions: extensions1(".py"), version: TREE_SITTER_PYTHON_VERSION }
    } else if i == 5 {
        LanguageInfo { name: "TypeScript", extensions: extensions1(".ts"), version: TREE_SITTER_TYPESCRIPT_VERSION }
    } else if i == 6 {
        LanguageInfo { name: "TSX", extensions: extensions1(".tsx"), version: TREE_SITTER_TYPESCRIPT_VERSION }
    } else if i == 7 {
        LanguageInfo { name: "JavaScript", extensions: extensions1(".js"), version: TREE_SITTER_JAVASCRIPT_VERSION }
    } else if i == 8 {
        LanguageInfo { name: "Ruby", extensions: extensions1(".rb"), version: TREE_SITTER_RUBY_VERSION }
    } else if i == 9 {
        LanguageInfo { name: "C", extensions: extensions2(".c", ".h"), version: TREE_SITTER_C_VERSION }
    } else if i == 10 {
        LanguageInfo { name: "C++", extensions: extensions5(".cpp", ".cc", ".cxx", ".hpp", ".hh"), version: TREE_SITTER_CPP_VERSION }
    } else if i == 11 {
        LanguageInfo { name: "Bash", extensions: extensions2(".sh", ".bash"), version: TREE_SITTER_BASH_VERSION }
    } else if i == 12 {
        LanguageInfo { name: "JSON", extensions: extensions1(".json"), version: TREE_SITTER_JSON_VERSION }
    } else if i == 13 {
        LanguageInfo { name: "HTML", extensions: extensions2(".html", ".htm"), version: TREE_SITTER_HTML_VERSION }
    } else if i == 14 {
        LanguageInfo { name: "CSS", extensions: extensions1(".css"), version: TREE_SITTER_CSS_VERSION }
    } else if i == 15 {
        LanguageInfo { name: "YAML", extensions: extensions2(".yml", ".yaml"), version: TREE_SITTER_YAML_VERSION }
    } else if i == 16 {
        LanguageInfo { name: "Swift", extensions: extensions1(".swift"), version: TREE_SITTER_SWIFT_VERSION }
    } else if i == 17 {
        LanguageInfo { name: "Scala", extensions: extensions1(".scala"), version: TREE_SITTER_SCALA_VERSION }
    } else if i == 18 {
        LanguageInfo { name: "Lua", extensions: extensions1(".lua"), version: TREE_SITTER_LUA_VERSION }
    } else if i == 19 {
        LanguageInfo { name: "HCL", extensions: extensions3(".hcl", ".tf", ".tfvars"), version: TREE_SITTER_HCL_VERSION }
    } else {
        LanguageInfo { name: "GraphQL", extensions: extensions2(".graphql", ".gql"), version: TREE_SITTER_GRAPHQL_VERSION }
    };
    assert(info@.extensions =~= language_extensions(i as int));
    info
}

/// The table of supported languages, in its fixed order.
pub fn supported_languages() -> (table: Vec<LanguageInfo>)
    ensures
        table@.len() == LANGUAGE_COUNT,
        forall|i: int| 0 <= i < LANGUAGE_COUNT ==> (#[trigger] table@[i])@ == language_row(i),
{
    let mut table: Vec<LanguageInfo> = Vec::new();
    let mut i: usize = 0;
    while i < LANGUAGE_COUNT
        invariant
            i <= LANGUAGE_COUNT,
            table@.len() == i,
            forall|j: int| 0 <= j < i ==> (#[trigger] table@[j])@ == language_row(j),
        decreases LANGUAGE_COUNT - i,
    {
        table.push(language_info(i));
        i += 1;
    }
    table
}

/// The grammar that the crate `tree_sitter_rust` exports as `LANGUAGE`. Nothing is
/// claimed of it.
#[verifier::external_body]
fn rust_grammar() -> (language: tree_sitter::Language) {
    tree_sitter_rust::LANGUAGE.into()
}

/// The grammar that the crate `tree_sitter_java` exports as `LANGUAGE`. Nothing is
/// claimed of it.
#[verifier::external_body]
fn java_grammar() -> (language: tree_sitter::Language) {
    tree_sitter_java::LANGUAGE.into()
}

/// The grammar that the crate `tree_sitter_c_sharp` exports as `LANGUAGE`. Nothing is
/// claimed of it.
#[verifier::external_body]
fn csharp_grammar() -> (language: tree_sitter::Language) {
    tree_sitter_c_sharp::LANGUAGE.into()
}

/// The grammar that the crate `tree_sitter_go` exports as `LANGUAGE`. Nothing is
/// claimed of it.
#[verifier::external_body]
fn go_grammar() -> (language: tree_sitter::Language) {
    tree_sitter_go::LANGUAGE.into()
}

/// The grammar that the crate `tree_sitter_python` exports as `LANGUAGE`. Nothing is
/// claimed of it.
#[verifier::external_body]
fn python_grammar() -> (language: tree_sitter::Language) {
    tree_sitter_python::LANGUAGE.into()
}

/// The grammar that the crate `tree_sitter_typescript` exports as `LANGUAGE_TYPESCRIPT`. Nothing is
/// claimed of it.
#[verifier::external_body]
fn typescript_grammar() -> (language: tree_sitter::Language) {
    tree_sitter_typescript::LANGUAGE_TYPESCRIPT.into()
}

/// The grammar that the crate `tree_sitter_typescript` exports as `LANGUAGE_TSX`. Nothing is
/// claimed of it.
#[verifier::external_body]
fn tsx_grammar() -> (language: tree_sitter::Language) {
    tree_sitter_typescript::LANGUAGE_TSX.into()
}

/// The grammar that the crate `tree_sitter_javascript` exports as `LANGUAGE`. Nothing is
/// claimed of it.
#[verifier::external_body]
fn javascript_grammar() -> (language: tree_sitter::Language) {
    tree_sitter_javascript::LANGUAGE.into()
}

/// The grammar that the crate `tree_sitter_ruby` exports as `LANGUAGE`. Nothing is
/// claimed of it.
#[verifier::external_body]
fn ruby_grammar() -> (language: tree_sitter::Language) {
    tree_sitter_ruby::LANGUAGE.into()
}

/// The grammar that the crate `tree_sitter_c` exports as `LANGUAGE`. Nothing is
/// claimed of it.
#[verifier::external_body]
fn c_grammar() -> (language: tree_sitter::Language) {
    tree_sitter_c::LANGUAGE.into()
}

/// The grammar that the crate `tree_sitter_cpp` exports as `LANGUAGE`. Nothing is
/// claimed of it.
#[verifier::external_body]
fn cpp_grammar() -> (language: tree_sitter::Language) {
    tree_sitter_cpp::LANGUAGE.into()
}

/// The grammar that the crate `tree_sitter_bash` exports as `LANGUAGE`. Nothing is
/// claimed of it.
#[verifier::external_body]
fn bash_grammar() -> (language: tree_sitter::Language) {
    tree_sitter_bash::LANGUAGE.into()
}

/// The grammar that the crate `tree_sitter_json` exports as `LANGUAGE`. Nothing is
/// claimed of it.
#[verifier::external_body]
fn json_grammar() -> (language: tree_sitter::Language) {
    tree_sitter_json::LANGUAGE.into()
}

/// The grammar that the crate `tree_sitter_html` exports as `LANGUAGE`. Nothing is
/// claimed of it.
#[verifier::external_body]
fn html_grammar() -> (language: tree_sitter::Language) {
    tree_sitter_html::LANGUAGE.into()
}

/// The grammar that the crate `tree_sitter_css` exports as `LANGUAGE`. Nothing is
/// claimed of it.
#[verifier::external_body]
fn css_grammar() -> (language: tree_sitter::Language) {
    tree_sitter_css::LANGUAGE.into()
}

/// The grammar that the crate `tree_sitter_yaml` exports as `LANGUAGE`. Nothing is
/// claimed of it.
#[verifier::external_body]
fn yaml_grammar() -> (language: tree_sitter::Language) {
    tree_sitter_yaml::LANGUAGE.into()
}

/// The grammar that the crate `tree_sitter_swift` exports as `LANGUAGE`. Nothing is
/// claimed of it.
#[verifier::external_body]
fn swift_grammar() -> (language: tree_sitter::Language) {
    tree_sitter_swift::LANGUAGE.into()
}

/// The grammar that the crate `tree_sitter_scala` exports as `LANGUAGE`. Nothing is
/// claimed of it.
#[verifier::external_body]
fn scala_grammar() -> (language: tree_sitter::Language) {
    tree_sitter_scala::LANGUAGE.into()
}

/// The grammar that the crate `tree_sitter_lua` exports as `LANGUAGE`. Nothing is
/// claimed of it.
#[verifier::external_body]
fn lua_grammar() -> (language: tree_sitter::Language) {
    tree_sitter_lua::LANGUAGE.into()
}

/// The grammar that the crate `tree_sitter_hcl` exports as `LANGUAGE`. Nothing is
/// claimed of it.
#[verifier::external_body]
fn hcl_grammar() -> (language: tree_sitter::Language) {
    tree_sitter_hcl::LANGUAGE.into()
}

/// The grammar that the crate `tree_sitter_graphql` exports as `LANGUAGE`. Nothing is
/// claimed of it.
#[verifier::external_body]
fn graphql_grammar() -> (language: tree_sitter::Language) {
    tree_sitter_graphql::LANGUAGE.into()
}

/// The grammars of all supported languages, loaded once and handed to the
/// registry by reference.
pub struct Grammars {
    pub rust: tree_sitter::Language,
    pub java: tree_sitter::Language,
    pub csharp: tree_sitter::Language,
    pub go: tree_sitter::Language,
    pub python: tree_sitter::Language,
    pub typescript: tree_sitter::Language,
    pub tsx: tree_sitter::Language,
    pub javascript: tree_sitter::Language,
    pub ruby: tree_sitter::Language,
    pub c: tree_sitter::Language,
    pub cpp: tree_sitter::Language,
    pub bash: tree_sitter::Language,
    pub json: tree_sitter::Language,
    pub html: tree_sitter::Language,
    pub css: tree_sitter::Language,
    pub yaml: tree_sitter::Language,
    pub swift: tree_sitter::Language,
    pub scala: tree_sitter::Language,
    pub lua: tree_sitter::Language,
    pub hcl: tree_sitter::Language,
    pub graphql: tree_sitter::Language,
}

impl Grammars {
    /// Loads every grammar.
    pub fn load() -> (grammars: Grammars) {
        Grammars {
            rust: rust_grammar(),
            java: java_grammar(),
            csharp: csharp_grammar(),
            go: go_grammar(),
            python: python_grammar(),
            typescript: typescript_grammar(),
            tsx: tsx_grammar(),
            javascript: javascript_grammar(),
            ruby: ruby_grammar(),
            c: c_grammar(),
            cpp: cpp_grammar(),
            bash: bash_grammar(),
            json: json_grammar(),
            html: html_grammar(),
            css: css_grammar(),
            yaml: yaml_grammar(),
            swift: swift_grammar(),
            scala: scala_grammar(),
            lua: lua_grammar(),
            hcl: hcl_grammar(),
            graphql: graphql_grammar(),
        }
    }

    /// The grammar of binding `i` of the default registry.
    pub open spec fn binding_grammar(self, i: int) -> tree_sitter::Language {
        if i == 0 {
            self.rust
        } else if i == 1 {
            self.java
        } else if i == 2 {
            self.csharp
        } else if i == 3 {
            self.go
        } else if i == 4 {
            self.python
        } else if i == 5 {
            self.typescript
        } else if i == 6 {
            self.tsx
        } else if i == 7 {
            self.javascript
        } else if i == 8 {
            self.ruby
        } else if i == 9 {
            self.c
        } else if i == 10 {
            self.c
        } else if i == 11 {
            self.cpp
        } else if i == 12 {
            self.cpp
        } else if i == 13 {
            self.bash
        } else if i == 14 {
            self.json
        } else if i == 15 {
            self.html
        } else if i == 16 {
            self.css
        } else if i == 17 {
            self.yaml
        } else if i == 18 {
            self.swift
        } else if i == 19 {
            self.scala
        } else if i == 20 {
            self.lua
        } else if i == 21 {
            self.hcl
        } else {
            self.graphql
        }
    }

    /// The grammar of binding `i` of the default registry.
    fn grammar_at(&self, i: usize) -> (language: &tree_sitter::Language)
        requires
            i < BINDING_COUNT,
        ensures
            *language == self.binding_grammar(i as int),
    {
        if i == 0 {
            &self.rust
        } else if i == 1 {
            &self.java
        } else if i == 2 {
            &self.csharp
        } else if i == 3 {
            &self.go
        } else if i == 4 {
            &self.python
        } else if i == 5 {
            &self.typescript
        } else if i == 6 {
            &self.tsx
        } else if i == 7 {
            &self.javascript
        } else if i == 8 {
            &self.ruby
        } else if i == 9 {
            &self.c
        } else if i == 10 {
            &self.c
        } else if i == 11 {
            &self.cpp
        } else if i == 12 {
            &self.cpp
        } else if i == 13 {
            &self.bash
        } else if i == 14 {
            &self.json
        } else if i == 15 {
            &self.html
        } else if i == 16 {
            &self.css
        } else if i == 17 {
            &self.yaml
        } else if i == 18 {
            &self.swift
        } else if i == 19 {
            &self.scala
        } else if i == 20 {
            &self.lua
        } else if i == 21 {
            &self.hcl
        } else {
            &self.graphql
        }
    }
}

/// The extension pattern of binding `i` of the default registry.
pub open spec fn binding_pattern(i: int) -> Seq<char> {
    if i == 0 {
        "rs$"@
    } else if i == 1 {
        "java$"@
    } else if i == 2 {
        "cs$"@
    } else if i == 3 {
        "go$"@
    } else if i == 4 {
        "py$"@
    } else if i == 5 {
        "ts$"@
    } else if i == 6 {
        "tsx$"@
    } else if i == 7 {
        "js$"@
    } else if i == 8 {
        "rb$"@
    } else if i == 9 {
        "c$"@
    } else if i == 10 {
        "h$"@
    } else if i == 11 {
        "(cpp|cc|cxx)$"@
    } else if i == 12 {
        "(hpp|hh|hxx)$"@
    } else if i == 13 {
        "(sh|bash)$"@
    } else if i == 14 {
        "json$"@
    } else if i == 15 {
        "(html|htm)$"@
    } else if i == 16 {
        "css$"@
    } else if i == 17 {
        "(ya?ml)$"@
    } else if i == 18 {
        "swift$"@
    } else if i == 19 {
        "scala$"@
    } else if i == 20 {
        "lua$"@
    } else if i == 21 {
        "(hcl|tf|tfvars)$"@
    } else {
        "(graphql|gql)$"@
    }
}

/// The display name of binding `i` of the default registry.
pub open spec fn binding_name(i: int) -> Seq<char> {
    if i == 0 {
        "Rust"@
    } else if i == 1 {
        "Java"@
    } else if i == 2 {
        "C#"@
    } else if i == 3 {
        "Go"@
    } else if i == 4 {
        "Python"@
    } else if i == 5 {
        "TypeScript"@
    } else if i == 6 {
        "TSX"@
    } else if i == 7 {
        "JavaScript"@
    } else if i == 8 {
        "Ruby"@
    } else if i == 9 {
        "C"@
    } else if i == 10 {
        "C"@
    } else if i == 11 {
        "C++"@
    } else if i == 12 {
        "C++"@
    } else if i == 13 {
        "Bash"@
    } else if i == 14 {
        "JSON"@
    } else if i == 15 {
        "HTML"@
    } else if i == 16 {
        "CSS"@
    } else if i == 17 {
        "YAML"@
    } else if i == 18 {
        "Swift"@
    } else if i == 19 {
        "Scala"@
    } else if i == 20 {
        "Lua"@
    } else if i == 21 {
        "HCL"@
    } else {
        "GraphQL"@
    }
}

fn pattern_at(i: usize) -> (pattern: &'static str)
    requires
        i < BINDING_COUNT,
    ensures
        pattern@ == binding_pattern(i as int),
{
    if i == 0 {
        "rs$"
    } else if i == 1 {
        "java$"
    } else if i == 2 {
        "cs$"
    } else if i == 3 {
        "go$"
    } else if i == 4 {
        "py$"
    } else if i == 5 {
        "ts$"
    } else if i == 6 {
        "tsx$"
    } else if i == 7 {
        "js$"
    } else if i == 8 {
        "rb$"
    } else if i == 9 {
        "c$"
    } else if i == 10 {
        "h$"
    } else if i == 11 {
        "(cpp|cc|cxx)$"
    } else if i == 12 {
        "(hpp|hh|hxx)$"
    } else if i == 13 {
        "(sh|bash)$"
    } else if i == 14 {
        "json$"
    } else if i == 15 {
        "(html|htm)$"
    } else if i == 16 {
        "css$"
    } else if i == 17 {
        "(ya?ml)$"
    } else if i == 18 {
        "swift$"
    } else if i == 19 {
        "scala$"
    } else if i == 20 {
        "lua$"
    } else if i == 21 {
        "(hcl|tf|tfvars)$"
    } else {
        "(graphql|gql)$"
    }
}

fn name_at(i: usize) -> (name: &'static str)
    requires
        i < BINDING_COUNT,
    ensures
        name@ == binding_name(i as int),
{
    if i == 0 {
        "Rust"
    } else if i == 1 {
        "Java"
    } else if i == 2 {
        "C#"
    } else if i == 3 {
        "Go"
    } else if i == 4 {
        "Python"
    } else if i == 5 {
        "TypeScript"
    } else if i == 6 {
        "TSX"
    } else if i == 7 {
        "JavaScript"
    } else if i == 8 {
        "Ruby"
    } else if i == 9 {
        "C"
    } else if i == 10 {
        "C"
    } else if i == 11 {
        "C++"
    } else if i == 12 {
        "C++"
    } else if i == 13 {
        "Bash"
    } else if i == 14 {
        "JSON"
    } else if i == 15 {
        "HTML"
    } else if i == 16 {
        "CSS"
    } else if i == 17 {
        "YAML"
    } else if i == 18 {
        "Swift"
    } else if i == 19 {
        "Scala"
    } else if i == 20 {
        "Lua"
    } else if i == 21 {
        "HCL"
    } else {
        "GraphQL"
    }
}

/// The regex engine accepts every pattern of the default registry.
pub open spec fn default_patterns_compile() -> bool {
    forall|i: int| 0 <= i < BINDING_COUNT ==> regex_compiles(#[trigger] binding_pattern(i))
}

/// The registry holds the default bindings over `grammars`, in their order.
pub open spec fn is_default_registry(registry: Encodings, grammars: Grammars) -> bool {
    &&& registry.bindings().len() == BINDING_COUNT
    &&& forall|i: int|
        0 <= i < BINDING_COUNT ==> {
            &&& (#[trigger] registry.bindings()[i]).pattern() == binding_pattern(i)
            &&& registry.bindings()[i].display_name() == binding_name(i)
            &&& registry.bindings()[i].grammar() == grammars.binding_grammar(i)
        }
}

/// Builds the default registry. The order matters, since the first match
/// wins: the pattern of C stands before those of C++, so a `.cc` file is
/// taken for C, and the pattern of Rust before that of HCL, so a `.tfvars`
/// file is taken for Rust.
pub fn create_encodings<'a>(grammars: &'a Grammars) -> (registry: Encodings<'a>)
    requires
        default_patterns_compile(),
    ensures
        is_default_registry(registry, *grammars),
{
    let mut registry = Encodings::new();
    let mut i: usize = 0;
    while i < BINDING_COUNT
        invariant
            i <= BINDING_COUNT,
            default_patterns_compile(),
            registry.bindings().len() == i,
            forall|j: int|
                0 <= j < i ==> {
                    &&& (#[trigger] registry.bindings()[j]).pattern() == binding_pattern(j)
                    &&& registry.bindings()[j].display_name() == binding_name(j)
                    &&& registry.bindings()[j].grammar() == grammars.binding_grammar(j)
                },
        decreases BINDING_COUNT - i,
    {
        let ghost before = registry.bindings();
        assert(regex_compiles(binding_pattern(i as int)));
        let added = registry.try_add(pattern_at(i), grammars.grammar_at(i), name_at(i));
        assert(added);
        proof {
            let now = registry.bindings();
            assert(now.last() == now[i as int]);
            assert forall|j: int| 0 <= j < i implies #[trigger] now[j] == before[j] by {
                assert(now.drop_last()[j] == now[j]);
            }
        }
        i += 1;
    }
    registry
}

/// Builds the default registry if the regex engine accepts every pattern of
/// it, and `None` otherwise.
pub fn try_create_encodings<'a>(grammars: &'a Grammars) -> (registry: Option<Encodings<'a>>)
    ensures
        registry.is_some() == default_patterns_compile(),
        registry matches Some(r) ==> is_default_registry(r, *grammars),
{
    let mut i: usize = 0;
    while i < BINDING_COUNT
        invariant
            i <= BINDING_COUNT,
            forall|j: int| 0 <= j < i ==> regex_compiles(#[trigger] binding_pattern(j)),
        decreases BINDING_COUNT - i,
    {
        if !pattern_compiles(pattern_at(i)) {
            assert(!regex_compiles(binding_pattern(i as int)));
            return None;
        }
        i += 1;
    }
    Some(create_encodings(grammars))
}

/// `unit` written `n` times.
pub open spec fn repeated(unit: Seq<char>, n: nat) -> Seq<char>
    decreases n,
{
    if n == 0 {
        Seq::<char>::empty()
    } else {
        repeated(unit, (n - 1) as nat) + unit
    }
}

/// `text` filled up with spaces on the right to `width` characters; a text
/// that is as long or longer stays as it is.
pub open spec fn padded(text: Seq<char>, width: nat) -> Seq<char> {
    if text.len() >= width {
        text
    } else {
        text + repeated(" "@, (width - text.len()) as nat)
    }
}

/// The parts written one after the other, with a comma and a space between
/// them.
pub open spec fn joined(parts: Seq<Seq<char>>) -> Seq<char>
    decreases parts.len(),
{
    if parts.len() == 0 {
        Seq::<char>::empty()
    } else if parts.len() == 1 {
        parts[0]
    } else {
        joined(parts.drop_last()) + ", "@ + parts.last()
    }
}

/// The three cells of a table row.
pub struct Cells {
    pub name: Seq<char>,
    pub extensions: Seq<char>,
    pub version: Seq<char>,
}

/// The cell widths of a table.
pub struct Widths {
    pub name: nat,
    pub extensions: nat,
    pub version: nat,
}

/// The cells of the header row.
pub open spec fn header_cells() -> Cells {
    Cells { name: "Language"@, extensions: "Extensions"@, version: "Tree-sitter Version"@ }
}

/// The cells of the row of one language.
pub open spec fn row_cells(row: LanguageRow) -> Cells {
    Cells { name: row.name, extensions: joined(row.extensions), version: row.version }
}

/// The larger of two numbers.
pub open spec fn larger(a: nat, b: nat) -> nat {
    if a >= b {
        a
    } else {
        b
    }
}

/// The widths of a table: each column is as wide as its longest cell, the
/// header counted in, where the length of a cell is that of its UTF-8 form.
pub open spec fn table_widths(rows: Seq<LanguageRow>) -> Widths
    decreases rows.len(),
{
    if rows.len() == 0 {
        Widths {
            name: encode_utf8(header_cells().name).len(),
            extensions: encode_utf8(header_cells().extensions).len(),
            version: encode_utf8(header_cells().version).len(),
        }
    } else {
        let before = table_widths(rows.drop_last());
        let cells = row_cells(rows.last());
        Widths {
            name: larger(before.name, encode_utf8(cells.name).len()),
            extensions: larger(before.extensions, encode_utf8(cells.extensions).len()),
            version: larger(before.version, encode_utf8(cells.version).len()),
        }
    }
}

/// A border line: corner or joint pieces with horizontal strokes between
/// them, two more strokes per column than the column is wide.
pub open spec fn border_line(left: Seq<char>, joint: Seq<char>, right: Seq<char>, w: Widths) -> Seq<
    char,
> {
    left + repeated("─"@, w.name + 2) + joint + repeated("─"@, w.extensions + 2) + joint
        + repeated("─"@, w.version + 2) + right
}

/// A row of cells, each filled up to the width of its column.
pub open spec fn row_line(cells: Cells, w: Widths) -> Seq<char> {
    "│ "@ + padded(cells.name, w.name) + " │ "@ + padded(cells.extensions, w.extensions)
        + " │ "@ + padded(cells.version, w.version) + " │"@
}

/// The lines of the table of languages: a title, the top border, the header
/// row, a border, one row per language, and the bottom border.
pub open spec fn table_lines(rows: Seq<LanguageRow>) -> Seq<Seq<char>> {
    let w = table_widths(rows);
    seq![
        "Supported Languages:"@,
        border_line("┌"@, "┬"@, "┐"@, w),
        row_line(header_cells(), w),
        border_line("├"@, "┼"@, "┤"@, w),
    ] + Seq::new(rows.len(), |i: int| row_line(row_cells(rows[i]), w)) + seq![
        border_line("└"@, "┴"@, "┘"@, w),
    ]
}

fn repeat_onto(text: &mut String, unit: &str, n: usize)
    ensures
        final(text)@ == old(text)@ + repeated(unit@, n as nat),
{
    let mut i: usize = 0;
    while i < n
        invariant
            i <= n,
            text@ == old(text)@ + repeated(unit@, i as nat),
        decreases n - i,
    {
        text.append(unit);
        i += 1;
        assert(text@ =~= old(text)@ + repeated(unit@, i as nat));
    }
    assert(text@ =~= old(text)@ + repeated(unit@, n as nat));
}

fn pad_onto(text: &mut String, cell: &str, width: usize)
    ensures
        final(text)@ == old(text)@ + padded(cell@, width as nat),
{
    let chars = cell.unicode_len();
    text.append(cell);
    if chars < width {
        repeat_onto(text, " ", width - chars);
        assert(text@ =~= old(text)@ + padded(cell@, width as nat));
    }
}

fn border(left: &str, joint: &str, right: &str, w: (usize, usize, usize)) -> (line: String)
    ensures
        line@ == border_line(
            left@,
            joint@,
            right@,
            (Widths { name: w.0 as nat, extensions: w.1 as nat, version: w.2 as nat }),
        ),
{
    let ghost stroke = "─"@;
    let mut line = String::from_str(left);
    repeat_onto(&mut line, "─", w.0);
    line.append("─");
    line.append("─");
    line.append(joint);
    let ghost first = line@;
    repeat_onto(&mut line, "─", w.1);
    line.append("─");
    line.append("─");
    line.append(joint);
    let ghost second = line@;
    repeat_onto(&mut line, "─", w.2);
    line.append("─");
    line.append("─");
    line.append(right);
    proof {
        assert(repeated(stroke, (w.0 + 2) as nat) =~= repeated(stroke, w.0 as nat) + stroke
            + stroke) by {
            assert(repeated(stroke, (w.0 + 1) as nat) == repeated(stroke, w.0 as nat) + stroke);
        }
        assert(repeated(stroke, (w.1 + 2) as nat) =~= repeated(stroke, w.1 as nat) + stroke
            + stroke) by {
            assert(repeated(stroke, (w.1 + 1) as nat) == repeated(stroke, w.1 as nat) + stroke);
        }
        assert(repeated(stroke, (w.2 + 2) as nat) =~= repeated(stroke, w.2 as nat) + stroke
            + stroke) by {
            assert(repeated(stroke, (w.2 + 1) as nat) == repeated(stroke, w.2 as nat) + stroke);
        }
        assert(first =~= left@ + repeated(stroke, (w.0 + 2) as nat) + joint@);
        assert(second =~= first + repeated(stroke, (w.1 + 2) as nat) + joint@);
        assert(line@ =~= second + repeated(stroke, (w.2 + 2) as nat) + right@);
    }
    line
}

fn row(name: &str, extensions: &str, version: &str, w: (usize, usize, usize)) -> (line: String)
    ensures
        line@ == row_line(
            (Cells { name: name@, extensions: extensions@, version: version@ }),
            (Widths { name: w.0 as nat, extensions: w.1 as nat, version: w.2 as nat }),
        ),
{
    let mut line = String::from_str("│ ");
    pad_onto(&mut line, name, w.0);
    line.append(" │ ");
    pad_onto(&mut line, extensions, w.1);
    line.append(" │ ");
    pad_onto(&mut line, version, w.2);
    line.append(" │");
    line
}

/// The extensions of a language in one cell.
pub fn join_extensions(info: &LanguageInfo) -> (cell: String)
    ensures
        cell@ == joined(info@.extensions),
{
    let mut cell = String::new();
    let mut i: usize = 0;
    while i < info.extensions.len()
        invariant
            i <= info.extensions.len(),
            info@.extensions.len() == info.extensions@.len(),
            cell@ == joined(info@.extensions.subrange(0, i as int)),
        decreases info.extensions.len() - i,
    {
        proof {
            let upto = info@.extensions.subrange(0, i + 1);
            assert(upto.drop_last() =~= info@.extensions.subrange(0, i as int));
            assert(upto.last() == info.extensions@[i as int]@);
            if i == 1 {
                assert(upto.drop_last()[0] == info@.extensions[0]);
            }
        }
        if i > 0 {
            cell.append(", ");
        }
        cell.append(info.extensions[i]);
        proof {
            let upto = info@.extensions.subrange(0, i + 1);
            if i == 0 {
                assert(cell@ =~= upto[0]);
            } else {
                assert(cell@ =~= joined(upto.drop_last()) + ", "@ + upto.last());
            }
        }
        i += 1;
    }
    assert(info@.extensions.subrange(0, i as int) =~= info@.extensions);
    cell
}

fn wider(width: usize, cell: &str) -> (w: usize)
    ensures
        w == larger(width as nat, encode_utf8(cell@).len()),
{
    let n = cell.as_bytes().len();
    if width >= n {
        width
    } else {
        n
    }
}

/// The models of the languages of a list.
pub open spec fn rows_of(langs: Seq<LanguageInfo>) -> Seq<LanguageRow> {
    Seq::new(langs.len(), |i: int| langs[i]@)
}

/// Lays the languages out as a table with aligned columns and a frame, one
/// text per line.
pub fn language_table(langs: &Vec<LanguageInfo>) -> (lines: Vec<String>)
    ensures
        lines@.len() == langs@.len() + 5,
        forall|i: int|
            0 <= i < lines@.len() ==> (#[trigger] lines@[i])@ == table_lines(rows_of(langs@))[i],
{
    let ghost rows = rows_of(langs@);
    let mut w: (usize, usize, usize) = (
        "Language".as_bytes().len(),
        "Extensions".as_bytes().len(),
        "Tree-sitter Version".as_bytes().len(),
    );
    let mut cells: Vec<String> = Vec::new();
    let mut i: usize = 0;
    while i < langs.len()
        invariant
            i <= langs.len(),
            rows == rows_of(langs@),
            cells@.len() == i,
            forall|j: int| 0 <= j < i ==> (#[trigger] cells@[j])@ == joined(rows[j].extensions),
            (Widths { name: w.0 as nat, extensions: w.1 as nat, version: w.2 as nat })
                == table_widths(rows.subrange(0, i as int)),
        decreases langs.len() - i,
    {
        proof {
            let upto = rows.subrange(0, i + 1);
            assert(upto.drop_last() =~= rows.subrange(0, i as int));
            assert(upto.last() == langs@[i as int]@);
        }
        let cell = join_extensions(&langs[i]);
        w = (
            wider(w.0, langs[i].name),
            wider(w.1, cell.as_str()),
            wider(w.2, langs[i].version),
        );
        cells.push(cell);
        i += 1;
    }
    assert(rows.subrange(0, i as int) =~= rows);
    let ghost widths = table_widths(rows);
    let ghost want = table_lines(rows);
    let mut lines: Vec<String> = Vec::new();
    lines.push(String::from_str("Supported Languages:"));
    lines.push(border("┌", "┬", "┐", w));
    lines.push(row("Language", "Extensions", "Tree-sitter Version", w));
    lines.push(border("├", "┼", "┤", w));
    let mut k: usize = 0;
    while k < langs.len()
        invariant
            k <= langs.len(),
            rows == rows_of(langs@),
            want == table_lines(rows),
            widths == table_widths(rows),
            cells@.len() == langs.len(),
            forall|j: int|
                0 <= j < langs.len() ==> (#[trigger] cells@[j])@ == joined(rows[j].extensions),
            (Widths { name: w.0 as nat, extensions: w.1 as nat, version: w.2 as nat }) == widths,
            lines@.len() == k + 4,
            forall|j: int| 0 <= j < k + 4 ==> (#[trigger] lines@[j])@ == want[j],
        decreases langs.len() - k,
    {
        let line = row(langs[k].name, cells[k].as_str(), langs[k].version, w);
        assert(line@ == want[k + 4]) by {
            assert(rows[k as int] == langs@[k as int]@);
        }
        lines.push(line);
        k += 1;
    }
    let last = border("└", "┴", "┘", w);
    assert(last@ == want[langs.len() + 4]);
    lines.push(last);
    lines
}

} // verus!
