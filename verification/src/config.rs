//! The settings of a configuration file, and how a run chooses between
//! them, the options and the defaults.

use crate::cli_types::Args;
use crate::error::AstgenError;
use vstd::prelude::*;
use vstd::string::*;

verus! {

/// File name patterns per language.
#[derive(Debug)]
pub struct PatternConfig {
    pub rust: Option<Vec<String>>,
    pub python: Option<Vec<String>>,
    pub javascript: Option<Vec<String>>,
    pub java: Option<Vec<String>>,
    pub go: Option<Vec<String>>,
    pub typescript: Option<Vec<String>>,
    pub csharp: Option<Vec<String>>,
    pub ruby: Option<Vec<String>>,
}

/// Patterns and directories that a walk leaves out.
#[derive(Debug)]
pub struct IgnoreConfig {
    pub patterns: Option<Vec<String>>,
    pub directories: Option<Vec<String>>,
}

/// How documents are written.
#[derive(Debug)]
pub struct OutputConfig {
    pub format: Option<String>,
    pub truncate: Option<usize>,
    pub pretty: Option<bool>,
}

/// Limits on the work of a run.
#[derive(Debug)]
pub struct PerformanceConfig {
    pub max_threads: Option<usize>,
    pub max_file_size_mb: Option<usize>,
    pub parser_pool_size: Option<usize>,
}

/// The settings of a configuration file; every section may be absent.
#[derive(Debug)]
pub struct Config {
    pub patterns: Option<PatternConfig>,
    pub ignore: Option<IgnoreConfig>,
    pub output: Option<OutputConfig>,
    pub performance: Option<PerformanceConfig>,
}

impl Default for Config {
    fn default() -> (config: Config)
        ensures
            config.is_blank(),
    {
        Config { patterns: None, ignore: None, output: None, performance: None }
    }
}

/// The message for a configuration file that cannot be read.
pub open spec fn unreadable_message(path: Seq<char>, detail: Seq<char>) -> Seq<char> {
    "Cannot read config file "@ + path + ": "@ + detail
}

/// The message for a configuration file that is not valid.
pub open spec fn invalid_message(path: Seq<char>, detail: Seq<char>) -> Seq<char> {
    "Invalid config file "@ + path + ": "@ + detail
        + "\n\nCheck the TOML syntax and ensure all required fields are present."@
}

impl Config {
    /// No section is set.
    pub open spec fn is_blank(self) -> bool {
        &&& self.patterns is None
        &&& self.ignore is None
        &&& self.output is None
        &&& self.performance is None
    }

    /// The thread count that the file asks for.
    pub open spec fn max_threads(self) -> Option<usize> {
        match self.performance {
            Some(p) => p.max_threads,
            None => None,
        }
    }

    /// The name of the configuration file that is looked for.
    pub fn default_file_name() -> (name: &'static str)
        ensures
            name@ == ".astgenrc"@,
    {
        ".astgenrc"
    }

    /// Chooses the configuration file of a run. Each argument is the path of
    /// the file in that directory if the file exists there; the one in the
    /// current directory is preferred to the one in the home directory.
    pub fn find_default(in_current_dir: Option<String>, in_home_dir: Option<String>) -> (found:
        Option<String>)
        ensures
            found == match in_current_dir {
                Some(p) => Some(p),
                None => in_home_dir,
            },
    {
        match in_current_dir {
            Some(p) => Some(p),
            None => in_home_dir,
        }
    }

    /// The error for a configuration file that cannot be read.
    pub fn unreadable(path: &str, detail: &str) -> (e: AstgenError)
        ensures
            e matches AstgenError::ConfigError(msg) && msg@ == unreadable_message(path@, detail@),
    {
        AstgenError::ConfigError(
            String::from_str("Cannot read config file ").concat(path).concat(": ").concat(detail),
        )
    }

    /// The error for a configuration file that is not valid.
    pub fn invalid(path: &str, detail: &str) -> (e: AstgenError)
        ensures
            e matches AstgenError::ConfigError(msg) && msg@ == invalid_message(path@, detail@),
    {
        AstgenError::ConfigError(
            String::from_str("Invalid config file ").concat(path).concat(": ").concat(
                detail,
            ).concat("\n\nCheck the TOML syntax and ensure all required fields are present."),
        )
    }

    /// The configuration of a run without a configuration option: what the
    /// default file gave if one was found, and the blank configuration if
    /// none was.
    pub fn load_default(found: Option<Result<Config, AstgenError>>) -> (loaded: Result<
        Config,
        AstgenError,
    >)
        ensures
            match found {
                Some(file) => loaded == file,
                None => loaded matches Ok(config) && config.is_blank(),
            },
    {
        match found {
            Some(file) => file,
            None => Ok(Config::default()),
        }
    }
}

/// The size of the worker pool: the option if it is set, else the setting of
/// the configuration file, else the number of cores of the host.
pub fn resolve_threads(args: &Args, config: &Config, host_cores: usize) -> (threads: usize)
    ensures
        threads == match args.parallel {
            Some(n) => n,
            None => match config.max_threads() {
                Some(n) => n,
                None => host_cores,
            },
        },
{
    if let Some(n) = args.parallel {
        return n;
    }
    if let Some(p) = &config.performance {
        if let Some(n) = p.max_threads {
            return n;
        }
    }
    host_cores
}

} // verus!
