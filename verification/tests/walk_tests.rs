use astgen::cli_types::{Args, OutputFormat};
use astgen::encodings::Encodings;
use astgen::error::AstgenError;
use astgen::walk::{
    entry_action, glob_match, plan_outcome, plan_single_file, should_process_file,
    should_walk_dir, show_progress, tally, EntryAction, FilePlan,
};

fn args() -> Args {
    Args {
        files: vec![],
        format: OutputFormat::Json,
        truncate: None,
        verbose: false,
        quiet: true,
        parallel: None,
        dry_run: true,
        max_file_size: 10,
        follow_links: false,
        max_depth: 100,
        list_languages: false,
        config: None,
        include_patterns: vec![],
        exclude_patterns: vec![],
        output: None,
        progress: false,
    }
}

#[test]
fn glob_with_one_star_is_prefix_and_suffix() {
    assert!(glob_match("src/*.rs", "src/main.rs"));
    assert!(glob_match("*.rs", "src/main.rs"));
    assert!(glob_match("src/*", "src/main.rs"));
    assert!(glob_match("*", "anything"));
    assert!(glob_match("*", ""));
    assert!(!glob_match("src/*.rs", "lib/main.rs"));
    assert!(!glob_match("src/*.rs", "src/main.js"));
    assert!(!glob_match("*.rs", "main.rs.bak"));
    assert!(!glob_match("abc*", "ab"));
    // prefix and suffix may overlap
    assert!(glob_match("ab*b", "ab"));
}

#[test]
fn glob_without_star_is_containment() {
    assert!(glob_match("main", "src/main.rs"));
    assert!(glob_match("", "src/main.rs"));
    assert!(glob_match("src/main.rs", "src/main.rs"));
    assert!(!glob_match("lib", "src/main.rs"));
    assert!(!glob_match("src/main.rs.bak", "src/main.rs"));
}

#[test]
fn glob_with_two_stars_is_literal() {
    assert!(!glob_match("**/*.rs", "src/main.rs"));
    assert!(glob_match("a*b*c", "xa*b*cx"));
    assert!(!glob_match("a*b*c", "aXbXc"));
}

#[test]
fn exclude_is_applied_before_include() {
    let mut a = args();
    assert!(should_process_file("src/main.rs", &a));
    a.exclude_patterns = vec!["main".to_string()];
    assert!(!should_process_file("src/main.rs", &a));
    assert!(should_process_file("src/lib.rs", &a));
    a.include_patterns = vec!["*.rs".to_string(), "*.py".to_string()];
    assert!(!should_process_file("src/main.rs", &a));
    assert!(should_process_file("src/lib.rs", &a));
    assert!(should_process_file("x.py", &a));
    assert!(!should_process_file("src/lib.js", &a));
}

#[test]
fn ignored_directories_are_whole_segments() {
    assert!(!should_walk_dir("target"));
    assert!(!should_walk_dir("a/target"));
    assert!(!should_walk_dir("a/target/debug/deps"));
    assert!(!should_walk_dir("/x/node_modules/y"));
    assert!(!should_walk_dir(".git"));
    assert!(!should_walk_dir("repo/.venv"));
    assert!(should_walk_dir("targets"));
    assert!(should_walk_dir("a/targets/b"));
    assert!(should_walk_dir("mytarget"));
    assert!(should_walk_dir("a/.github"));
    assert!(should_walk_dir("Target"));
    assert!(should_walk_dir("src"));
    assert!(should_walk_dir(""));
}

#[test]
fn one_failure_in_any_place() {
    for failed in 0..5 {
        let mut outcomes: Vec<Result<bool, AstgenError>> = Vec::new();
        for i in 0..5 {
            if i == failed {
                outcomes.push(Err(AstgenError::ParseError("x".to_string())));
            } else {
                outcomes.push(Ok(true));
            }
        }
        assert_eq!(tally(&outcomes), (4, 1));
    }
}

#[test]
fn tally_counts_only_processed_files() {
    let outcomes: Vec<Result<bool, AstgenError>> = vec![
        Ok(true),
        Ok(false),
        Err(AstgenError::InvalidInput("x".to_string())),
        Ok(true),
    ];
    assert_eq!(tally(&outcomes), (2, 2));
    let reversed: Vec<Result<bool, AstgenError>> = vec![
        Ok(true),
        Err(AstgenError::InvalidInput("x".to_string())),
        Ok(false),
        Ok(true),
    ];
    assert_eq!(tally(&reversed), (2, 2));
    assert_eq!(tally(&vec![]), (0, 0));
}

#[test]
fn progress_on_request_or_for_many_files() {
    let mut a = args();
    a.quiet = false;
    assert!(!show_progress(&a, 10));
    assert!(show_progress(&a, 11));
    a.quiet = true;
    assert!(!show_progress(&a, 11));
    a.progress = true;
    assert!(show_progress(&a, 0));
}

#[test]
fn plan_of_a_single_file() {
    let rust_language = tree_sitter_rust::LANGUAGE.into();
    let mut encodings = Encodings::new();
    encodings.add("rs$", &rust_language, "Rust");
    let mut a = args();

    match plan_single_file("a.rs", &encodings, &a).unwrap() {
        FilePlan::Announce(binding) => assert_eq!(binding.name, "Rust"),
        _ => panic!("expected a dry run"),
    }
    a.dry_run = false;
    a.max_file_size = 3;
    match plan_single_file("a.rs", &encodings, &a).unwrap() {
        FilePlan::Parse(binding, limit) => {
            assert_eq!(binding.name, "Rust");
            assert_eq!(limit, 3_000_000);
        }
        _ => panic!("expected a parse"),
    }
    assert!(matches!(plan_single_file("a.txt", &encodings, &a), Ok(FilePlan::Unsupported)));
    a.exclude_patterns = vec!["a.".to_string()];
    assert!(matches!(plan_single_file("a.rs", &encodings, &a), Ok(FilePlan::Filtered)));
    a.exclude_patterns = vec![];
    a.verbose = true;
    a.quiet = false;
    match plan_single_file("a.txt", &encodings, &a) {
        Err(AstgenError::UnsupportedFileType(path)) => assert_eq!(path, "a.txt"),
        _ => panic!("expected an error"),
    }
    assert!(matches!(plan_single_file("Makefile", &encodings, &a), Ok(FilePlan::Unsupported)));
    match plan_single_file("a.unknown", &encodings, &a) {
        Err(AstgenError::UnsupportedFileType(path)) => assert_eq!(path, "a.unknown"),
        _ => panic!("expected an error"),
    }
    a.quiet = true;
    assert!(matches!(plan_single_file("a.txt", &encodings, &a), Ok(FilePlan::Unsupported)));
}

#[test]
fn outcome_of_a_plan() {
    let rust_language = tree_sitter_rust::LANGUAGE.into();
    let mut encodings = Encodings::new();
    encodings.add("rs$", &rust_language, "Rust");
    let binding = encodings.get(0).unwrap();
    assert!(!plan_outcome(&FilePlan::Filtered, true));
    assert!(!plan_outcome(&FilePlan::Unsupported, true));
    assert!(plan_outcome(&FilePlan::Announce(binding), false));
    assert!(plan_outcome(&FilePlan::Parse(binding, 1), true));
    assert!(!plan_outcome(&FilePlan::Parse(binding, 1), false));
}

#[test]
fn action_for_a_directory_entry() {
    let rust_language = tree_sitter_rust::LANGUAGE.into();
    let go_language = tree_sitter_go::LANGUAGE.into();
    let mut encodings = Encodings::new();
    encodings.add("go$", &go_language, "Go").add("rs$", &rust_language, "Rust");
    assert_eq!(entry_action("a/src", true, &encodings), EntryAction::Descend);
    assert_eq!(entry_action("a/target", true, &encodings), EntryAction::Skip);
    assert_eq!(entry_action("a/targets", true, &encodings), EntryAction::Descend);
    assert_eq!(entry_action("a/main.rs", false, &encodings), EntryAction::Parse(1));
    assert_eq!(entry_action("a/main.go", false, &encodings), EntryAction::Parse(0));
    assert_eq!(entry_action("a/readme.txt", false, &encodings), EntryAction::Skip);
}
