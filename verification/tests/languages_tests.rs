use astgen::languages::{
    join_extensions, language_table, supported_languages, try_create_encodings, Grammars,
    LanguageInfo, BINDING_COUNT, LANGUAGE_COUNT,
};
use astgen::parsing::parse_content;

#[test]
fn test_create_encodings_not_empty() {
    let grammars = Grammars::load();
    let encodings = try_create_encodings(&grammars).unwrap();

    assert!(encodings.match_file("test.rs").is_some());
    assert!(encodings.match_file("test.js").is_some());
    assert!(encodings.match_file("test.py").is_some());
    assert!(encodings.match_file("test.java").is_some());
    assert!(encodings.match_file("test.go").is_some());
    assert!(encodings.match_file("test.ts").is_some());
    assert!(encodings.match_file("test.tsx").is_some());
    assert!(encodings.match_file("test.cs").is_some());
    assert!(encodings.match_file("test.rb").is_some());
}

#[test]
fn test_create_encodings_handles_unknown_extensions() {
    let grammars = Grammars::load();
    let encodings = try_create_encodings(&grammars).unwrap();
    assert!(encodings.match_file("test.unknown").is_none());
    assert!(encodings.match_file("test.txt").is_none());
    assert!(encodings.match_file("test").is_none());
}

#[test]
fn default_registry_is_in_its_order() {
    let grammars = Grammars::load();
    let encodings = try_create_encodings(&grammars).unwrap();
    assert_eq!(encodings.len(), BINDING_COUNT);
    assert_eq!(encodings.len(), 23);
    assert_eq!(encodings.get(0).unwrap().name, "Rust");
    assert_eq!(encodings.get(9).unwrap().name, "C");
    assert_eq!(encodings.get(10).unwrap().name, "C");
    assert_eq!(encodings.get(22).unwrap().name, "GraphQL");
    assert_eq!(encodings.match_file("a.tsx").unwrap().name, "TSX");
    assert_eq!(encodings.match_file("a.yml").unwrap().name, "YAML");
    assert_eq!(encodings.match_file("a.yaml").unwrap().name, "YAML");
    assert_eq!(encodings.match_file("a.tf").unwrap().name, "HCL");
    assert_eq!(encodings.match_file("a.hcl").unwrap().name, "HCL");
    assert_eq!(encodings.match_file("a.hpp").unwrap().name, "C++");
    assert_eq!(encodings.match_file("a.h").unwrap().name, "C");
    // the first match wins, whatever a later pattern says
    assert_eq!(encodings.match_file("a.css").unwrap().name, "CSS");
    assert_eq!(encodings.match_file("a.cc").unwrap().name, "C");
    assert_eq!(encodings.match_file("a.tfvars").unwrap().name, "Rust");
}

#[test]
fn every_grammar_parses_the_empty_text() {
    let grammars = Grammars::load();
    let encodings = try_create_encodings(&grammars).unwrap();
    for i in 0..encodings.len() {
        let binding = encodings.get(i).unwrap();
        let text = parse_content("x", "", binding, None).unwrap();
        assert!(text.contains(&format!("\"language\":\"{}\"", binding.name)));
    }
}

#[test]
fn supported_languages_lists_each_language_once() {
    let langs = supported_languages();
    assert_eq!(langs.len(), LANGUAGE_COUNT);
    assert_eq!(langs.len(), 21);
    assert!(langs.iter().any(|l| l.name == "GraphQL"));
    assert!(langs.iter().any(|l| l.name == "C++"));
    assert_eq!(langs[0].name, "Rust");
    assert_eq!(langs[0].extensions, vec![".rs"]);
    assert_eq!(langs[10].name, "C++");
    assert_eq!(langs[10].extensions, vec![".cpp", ".cc", ".cxx", ".hpp", ".hh"]);
    assert_eq!(langs[19].extensions, vec![".hcl", ".tf", ".tfvars"]);
    assert_eq!(langs[5].version, langs[6].version);
    for l in langs.iter() {
        assert!(!l.version.is_empty());
        assert!(l.extensions.iter().all(|e| e.starts_with('.')));
    }
}

#[test]
fn table_of_two_languages_is_exact() {
    let langs = vec![
        LanguageInfo { name: "C", extensions: vec![".c", ".h"], version: "0.24.2" },
        LanguageInfo { name: "A very long language name", extensions: vec![], version: "1" },
    ];
    assert_eq!(join_extensions(&langs[0]), ".c, .h");
    assert_eq!(join_extensions(&langs[1]), "");
    let lines = language_table(&langs);
    let expected = vec![
        "Supported Languages:",
        "┌───────────────────────────┬────────────┬─────────────────────┐",
        "│ Language                  │ Extensions │ Tree-sitter Version │",
        "├───────────────────────────┼────────────┼─────────────────────┤",
        "│ C                         │ .c, .h     │ 0.24.2              │",
        "│ A very long language name │            │ 1                   │",
        "└───────────────────────────┴────────────┴─────────────────────┘",
    ];
    assert_eq!(lines, expected);
}

#[test]
fn table_of_all_languages_is_aligned() {
    let langs = supported_languages();
    let lines = language_table(&langs);
    assert_eq!(lines.len(), langs.len() + 5);
    assert_eq!(lines[0], "Supported Languages:");
    assert!(lines[2].contains("Language"));
    assert!(lines[2].contains("Tree-sitter Version"));
    assert!(lines.iter().any(|l| l.contains("Rust")));
    assert!(lines.iter().any(|l| l.contains("JavaScript")));
    assert!(lines.iter().any(|l| l.contains(".cpp, .cc, .cxx, .hpp, .hh")));
    let width = lines[1].chars().count();
    for line in &lines[1..] {
        assert_eq!(line.chars().count(), width);
    }
    for line in &lines[4..lines.len() - 1] {
        assert!(line.starts_with("│ ") && line.ends_with(" │"));
    }
}

#[test]
fn table_without_languages_has_only_its_frame() {
    let lines = language_table(&vec![]);
    assert_eq!(lines.len(), 5);
    assert_eq!(lines[2], "│ Language │ Extensions │ Tree-sitter Version │");
    assert_eq!(lines[4], "└──────────┴────────────┴─────────────────────┘");
}

#[test]
fn every_field_holds_the_grammar_of_its_crate() {
    let g = Grammars::load();
    let pairs: Vec<(&tree_sitter::Language, tree_sitter::Language)> = vec![
        (&g.rust, tree_sitter_rust::LANGUAGE.into()),
        (&g.java, tree_sitter_java::LANGUAGE.into()),
        (&g.csharp, tree_sitter_c_sharp::LANGUAGE.into()),
        (&g.go, tree_sitter_go::LANGUAGE.into()),
        (&g.python, tree_sitter_python::LANGUAGE.into()),
        (&g.typescript, tree_sitter_typescript::LANGUAGE_TYPESCRIPT.into()),
        (&g.tsx, tree_sitter_typescript::LANGUAGE_TSX.into()),
        (&g.javascript, tree_sitter_javascript::LANGUAGE.into()),
        (&g.ruby, tree_sitter_ruby::LANGUAGE.into()),
        (&g.c, tree_sitter_c::LANGUAGE.into()),
        (&g.cpp, tree_sitter_cpp::LANGUAGE.into()),
        (&g.bash, tree_sitter_bash::LANGUAGE.into()),
        (&g.json, tree_sitter_json::LANGUAGE.into()),
        (&g.html, tree_sitter_html::LANGUAGE.into()),
        (&g.css, tree_sitter_css::LANGUAGE.into()),
        (&g.yaml, tree_sitter_yaml::LANGUAGE.into()),
        (&g.swift, tree_sitter_swift::LANGUAGE.into()),
        (&g.scala, tree_sitter_scala::LANGUAGE.into()),
        (&g.lua, tree_sitter_lua::LANGUAGE.into()),
        (&g.hcl, tree_sitter_hcl::LANGUAGE.into()),
        (&g.graphql, tree_sitter_graphql::LANGUAGE.into()),
    ];
    for (i, (held, exported)) in pairs.iter().enumerate() {
        assert!(*held == exported);
        for (j, (other, _)) in pairs.iter().enumerate() {
            if i != j {
                assert!(*held != *other);
            }
        }
    }
    let again = Grammars::load();
    assert!(g.rust == again.rust);
    assert!(g.tsx == again.tsx);
}

#[test]
fn test_table_alignment() {
    let langs = supported_languages();
    let lines = language_table(&langs);
    assert_eq!(lines.len(), langs.len() + 5);
    assert!(langs.iter().any(|l| l.name == "GraphQL"));
    assert!(langs.iter().any(|l| l.name == "C++"));
}
