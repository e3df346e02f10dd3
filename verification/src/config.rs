//! Application configuration values.
//!
//! Plain data: the global hotkey, an optional runtime path, and the
//! switches for the built-in features. Loading a configuration file
//! from disk is I/O and lives in the surrounding application, which
//! hands the parsed values to these types and falls back to the
//! defaults below when nothing can be read.

use vstd::prelude::*;
use vstd::string::StringExecFns;

verus! {

/// The application configuration.
#[derive(Debug, Clone)]
pub struct Config {
    pub hotkey: HotkeyConfig,
    /// Explicit path to the script runtime; the system path is
    /// searched when absent.
    pub bun_path: Option<String>,
}

/// The global hotkey: modifier names plus a key name.
#[derive(Debug, Clone)]
pub struct HotkeyConfig {
    pub modifiers: Vec<String>,
    pub key: String,
}

/// Which built-in features appear in the main search.
#[derive(Debug, Clone)]
pub struct BuiltInConfig {
    pub clipboard_history: bool,
    pub app_launcher: bool,
}

impl Default for Config {
    /// The default binding: command plus semicolon, runtime from the
    /// system path.
    fn default() -> (r: Config)
        ensures
            r.hotkey.modifiers@.len() == 1,
            r.hotkey.modifiers@[0]@ == "meta"@,
            r.hotkey.key@ == "Semicolon"@,
            r.bun_path is None,
    {
        let mut modifiers: Vec<String> = Vec::new();
        modifiers.push(String::from_str("meta"));
        Config {
            hotkey: HotkeyConfig { modifiers, key: String::from_str("Semicolon") },
            bun_path: None,
        }
    }
}

impl Default for BuiltInConfig {
    /// Every built-in feature enabled.
    fn default() -> (r: BuiltInConfig)
        ensures
            r.clipboard_history,
            r.app_launcher,
    {
        BuiltInConfig { clipboard_history: true, app_launcher: true }
    }
}

} // verus!
