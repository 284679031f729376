use astgen::cli_types::{format_output, yaml_failure, Args, OutputFormat};
use astgen::config::{resolve_threads, Config, PerformanceConfig};
use astgen::error::AstgenError;

fn valid() -> Args {
    Args {
        files: vec!["src".to_string()],
        format: OutputFormat::Json,
        truncate: None,
        verbose: false,
        quiet: false,
        parallel: None,
        dry_run: false,
        max_file_size: 10,
        follow_links: false,
        max_depth: 100,
        list_languages: false,
        config: None,
        include_patterns: vec![],
        exclude_patterns: vec![],
        output: None,
        progress: false,
    }
}

fn complaint(args: &Args, missing: Option<&str>) -> String {
    match args.validate(missing) {
        Err(AstgenError::ConfigError(msg)) => msg,
        Err(_) => panic!("expected a configuration error"),
        Ok(()) => panic!("expected a complaint"),
    }
}

#[test]
fn valid_options_pass() {
    assert!(valid().validate(None).is_ok());
    let mut a = valid();
    a.parallel = Some(1);
    a.max_file_size = 1;
    a.max_depth = 1;
    assert!(a.validate(None).is_ok());
    a.parallel = Some(64);
    a.max_file_size = 1000;
    a.include_patterns = vec!["*.rs".to_string()];
    a.exclude_patterns = vec!["target/*".to_string()];
    assert!(a.validate(None).is_ok());
}

#[test]
fn each_rule_has_its_complaint() {
    let mut a = valid();
    a.parallel = Some(0);
    assert_eq!(
        complaint(&a, None),
        "Thread count must be at least 1. Try using --parallel 1 or omit the flag to use default."
    );
    a.parallel = Some(65);
    assert_eq!(
        complaint(&a, None),
        "Thread count cannot exceed 64. Try using a smaller number like --parallel 8."
    );
    let mut a = valid();
    a.max_file_size = 0;
    assert_eq!(
        complaint(&a, None),
        "Max file size must be at least 1 MB. Try using --max-file-size 1."
    );
    a.max_file_size = 1001;
    assert_eq!(
        complaint(&a, None),
        "Max file size cannot exceed 1000 MB. Try using a smaller limit like --max-file-size 100."
    );
    let mut a = valid();
    a.max_depth = 0;
    assert_eq!(
        complaint(&a, None),
        "Max depth must be at least 1. Try using --max-depth 1 or omit the flag to use default."
    );
    let mut a = valid();
    a.verbose = true;
    a.quiet = true;
    assert_eq!(
        complaint(&a, None),
        "Cannot use both --verbose and --quiet flags together. Choose one or neither."
    );
    let a = valid();
    assert_eq!(
        complaint(&a, Some("out/dir")),
        "Output directory does not exist: out/dir. Create the directory first."
    );
    let mut a = valid();
    a.include_patterns = vec!["*.rs".to_string(), "".to_string()];
    assert_eq!(
        complaint(&a, None),
        "Include pattern cannot be empty. Use a valid glob pattern like '*.rs'."
    );
    let mut a = valid();
    a.exclude_patterns = vec!["".to_string()];
    assert_eq!(
        complaint(&a, None),
        "Exclude pattern cannot be empty. Use a valid glob pattern like 'target/*'."
    );
}

#[test]
fn the_first_broken_rule_is_reported() {
    let mut a = valid();
    a.parallel = Some(0);
    a.max_file_size = 0;
    a.max_depth = 0;
    a.verbose = true;
    a.quiet = true;
    a.exclude_patterns = vec!["".to_string()];
    assert!(complaint(&a, Some("x")).starts_with("Thread count must be at least 1"));
    a.parallel = None;
    assert!(complaint(&a, Some("x")).starts_with("Max file size must be at least 1"));
    a.max_file_size = 5;
    assert!(complaint(&a, Some("x")).starts_with("Max depth"));
    a.max_depth = 5;
    assert!(complaint(&a, Some("x")).starts_with("Cannot use both"));
    a.quiet = false;
    assert!(complaint(&a, Some("x")).starts_with("Output directory"));
    assert!(complaint(&a, None).starts_with("Exclude pattern"));
}

#[test]
fn compact_output_is_unchanged() {
    assert_eq!(format_output("{\"a\":1}", &OutputFormat::Json).unwrap(), "{\"a\":1}");
    assert_eq!(format_output("not json", &OutputFormat::Json).unwrap(), "not json");
}

#[test]
fn pretty_and_yaml_output() {
    assert_eq!(
        format_output("{\"a\":1}", &OutputFormat::PrettyJson).unwrap(),
        "{\n  \"a\": 1\n}"
    );
    assert_eq!(format_output("{\"a\":1}", &OutputFormat::Yaml).unwrap(), "a: 1\n");
    assert!(matches!(
        format_output("{\"a\":", &OutputFormat::PrettyJson),
        Err(AstgenError::SerializationError(_))
    ));
    assert!(matches!(
        format_output("{\"a\":", &OutputFormat::Yaml),
        Err(AstgenError::SerializationError(_))
    ));
}

#[test]
fn yaml_failure_has_its_prefix() {
    match yaml_failure("oops") {
        AstgenError::SerializationError(msg) => {
            assert_eq!(msg, "YAML serialization failed: oops")
        }
        _ => panic!("expected a serialization error"),
    }
}

#[test]
fn default_config_is_blank() {
    let config = Config::default();
    assert!(config.patterns.is_none());
    assert!(config.ignore.is_none());
    assert!(config.output.is_none());
    assert!(config.performance.is_none());
    let loaded = Config::load_default(None).unwrap();
    assert!(loaded.performance.is_none() && loaded.output.is_none());
}

#[test]
fn load_default_hands_on_what_the_file_gave() {
    let mut config = Config::default();
    config.performance = Some(PerformanceConfig {
        max_threads: Some(3),
        max_file_size_mb: None,
        parser_pool_size: None,
    });
    let loaded = Config::load_default(Some(Ok(config))).unwrap();
    assert_eq!(loaded.performance.unwrap().max_threads, Some(3));
    let failed = Config::load_default(Some(Err(Config::invalid("x.toml", "bad"))));
    match failed {
        Err(AstgenError::ConfigError(msg)) => assert_eq!(
            msg,
            "Invalid config file x.toml: bad\n\nCheck the TOML syntax and ensure all required fields are present."
        ),
        _ => panic!("expected a configuration error"),
    }
    match Config::unreadable("x.toml", "denied") {
        AstgenError::ConfigError(msg) => assert_eq!(msg, "Cannot read config file x.toml: denied"),
        _ => panic!("expected a configuration error"),
    }
}

#[test]
fn default_file_is_found_in_the_current_directory_first() {
    assert_eq!(Config::default_file_name(), ".astgenrc");
    assert_eq!(
        Config::find_default(Some("./.astgenrc".to_string()), Some("/home/u/.astgenrc".to_string())),
        Some("./.astgenrc".to_string())
    );
    assert_eq!(
        Config::find_default(None, Some("/home/u/.astgenrc".to_string())),
        Some("/home/u/.astgenrc".to_string())
    );
    assert_eq!(Config::find_default(None, None), None);
}

#[test]
fn thread_count_prefers_option_then_file_then_host() {
    let mut args = valid();
    let mut config = Config::default();
    assert_eq!(resolve_threads(&args, &config, 8), 8);
    config.performance = Some(PerformanceConfig {
        max_threads: Some(3),
        max_file_size_mb: None,
        parser_pool_size: None,
    });
    assert_eq!(resolve_threads(&args, &config, 8), 3);
    args.parallel = Some(2);
    assert_eq!(resolve_threads(&args, &config, 8), 2);
    config.performance = Some(PerformanceConfig {
        max_threads: None,
        max_file_size_mb: None,
        parser_pool_size: None,
    });
    args.parallel = None;
    assert_eq!(resolve_threads(&args, &config, 8), 8);
}
