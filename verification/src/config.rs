//! Configuration: the persisted shape, its defaults, and the merge with
//! command-line overrides. Loading the file itself happens outside the
//! library; this module fixes what a fresh configuration holds and how
//! overrides win.

use vstd::prelude::*;
use vstd::string::StringExecFns;

verus! {

/// The persisted configuration, as read from the configuration file.
pub struct Config {
    pub api_key: String,
    pub competition_id: Option<String>,
    pub format: Option<String>,
    pub server_url: String,
    pub compression_level: u8,
    pub exclude: Vec<String>,
    pub auto_confirm: bool,
    pub save_history: bool,
}

/// Command-line overrides for one run. Every `Some` wins over the
/// persisted value; `auto_confirm` is a flag that forces confirmation
/// off when set.
pub struct Overrides {
    pub api_key: Option<String>,
    pub competition_id: Option<String>,
    pub server: Option<String>,
    pub compression: Option<u8>,
    pub force_format: Option<String>,
    pub auto_confirm: bool,
}

/// The settings of one run after the merge: immutable thereafter.
pub struct Settings {
    pub api_key: String,
    pub competition_id: Option<String>,
    pub server_url: String,
    pub compression: u8,
    pub auto_confirm: bool,
    pub format_choice: Option<String>,
    pub exclude: Vec<String>,
}

/// Default for the preference that keeps a local submission history.
pub fn default_true() -> (b: bool)
    ensures
        b,
{
    true
}

/// Default server base URL used when the configuration gives none.
pub fn default_server_url() -> (u: String)
    ensures
        u@ == "http://localhost:3000"@,
{
    String::from_str("http://localhost:3000")
}

/// Default compression level used when the configuration gives none.
pub fn default_compression_level() -> (level: u8)
    ensures
        level == 6,
{
    6
}

/// The user-facing exclusion entries a fresh configuration file starts
/// with.
pub open spec fn default_exclude_entries() -> Seq<Seq<char>> {
    seq![".git"@, ".DS_Store"@, "node_modules"@, "target"@, ".env"@, "venv"@]
}

/// A fresh configuration: a placeholder API key unless one is given, the
/// identifier as given, no pinned format, the default server URL and
/// compression level, the conventional exclusion entries, confirmation
/// prompts on, history on.
pub fn default_config(api_key: Option<String>, competition_id: Option<String>) -> (c: Config)
    ensures
        match api_key {
            Some(k) => c.api_key == k,
            None => c.api_key@ == "your-api-key-here"@,
        },
        c.competition_id == competition_id,
        c.format is None,
        c.server_url@ == "http://localhost:3000"@,
        c.compression_level == 6,
        c.exclude@.map_values(|s: String| s@) == default_exclude_entries(),
        !c.auto_confirm,
        c.save_history,
{
    let key = match api_key {
        Some(k) => k,
        None => String::from_str("your-api-key-here"),
    };
    let mut exclude: Vec<String> = Vec::new();
    exclude.push(String::from_str(".git"));
    exclude.push(String::from_str(".DS_Store"));
    exclude.push(String::from_str("node_modules"));
    exclude.push(String::from_str("target"));
    exclude.push(String::from_str(".env"));
    exclude.push(String::from_str("venv"));
    assert(exclude@.map_values(|s: String| s@) =~= default_exclude_entries());
    Config {
        api_key: key,
        competition_id,
        format: None,
        server_url: default_server_url(),
        compression_level: default_compression_level(),
        exclude,
        auto_confirm: false,
        save_history: default_true(),
    }
}

/// Merge the persisted configuration with the command-line overrides:
/// the command line wins wherever it gives a value; auto-confirmation
/// holds when either side asks for it; the format choice is the forced
/// format if any, else the configured one, else none — in which case the
/// server will be asked.
pub fn resolve_settings(config: Config, cli: Overrides) -> (s: Settings)
    ensures
        s.api_key == (match cli.api_key {
            Some(k) => k,
            None => config.api_key,
        }),
        s.competition_id == (if cli.competition_id is Some {
            cli.competition_id
        } else {
            config.competition_id
        }),
        s.server_url == (match cli.server {
            Some(u) => u,
            None => config.server_url,
        }),
        s.compression == (match cli.compression {
            Some(level) => level,
            None => config.compression_level,
        }),
        s.auto_confirm == (cli.auto_confirm || config.auto_confirm),
        s.format_choice == (if cli.force_format is Some {
            cli.force_format
        } else {
            config.format
        }),
        s.exclude == config.exclude,
{
    Settings {
        api_key: match cli.api_key {
            Some(k) => k,
            None => config.api_key,
        },
        competition_id: match cli.competition_id {
            Some(id) => Some(id),
            None => config.competition_id,
        },
        server_url: match cli.server {
            Some(u) => u,
            None => config.server_url,
        },
        compression: match cli.compression {
            Some(level) => level,
            None => config.compression_level,
        },
        auto_confirm: cli.auto_confirm || config.auto_confirm,
        format_choice: match cli.force_format {
            Some(f) => Some(f),
            None => config.format,
        },
        exclude: config.exclude,
    }
}

} // verus!
