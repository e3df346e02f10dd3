//! The registry of built-in features that appear in the main search
//! alongside scripts.

use vstd::prelude::*;
use vstd::string::StringExecFns;

use crate::config::BuiltInConfig;

verus! {

/// The built-in features.
#[derive(Debug, Clone, PartialEq, Eq)]
pub enum BuiltInFeature {
    /// Clipboard history viewer and manager.
    ClipboardHistory,
    /// Launcher for installed applications.
    AppLauncher,
    /// One installed application, by name.
    App(String),
}

/// One built-in entry of the main search.
#[derive(Debug, Clone)]
pub struct BuiltInEntry {
    /// Unique identifier of the entry.
    pub id: String,
    /// Display name shown in search results.
    pub name: String,
    /// Description shown below the name.
    pub description: String,
    /// Keywords for fuzzy matching in search.
    pub keywords: Vec<String>,
    /// The feature this entry opens.
    pub feature: BuiltInFeature,
}

impl BuiltInEntry {
    /// An entry from its parts; the keyword list is copied into owned
    /// strings.
    pub fn new(
        id: &str,
        name: &str,
        description: &str,
        keywords: Vec<&str>,
        feature: BuiltInFeature,
    ) -> (r: BuiltInEntry)
        ensures
            r.id@ == id@,
            r.name@ == name@,
            r.description@ == description@,
            r.keywords@.len() == keywords@.len(),
            forall|i: int|
                0 <= i < keywords@.len() ==> (#[trigger] r.keywords@[i])@ == keywords@[i]@,
            r.feature == feature,
    {
        let mut ks: Vec<String> = Vec::new();
        let mut i: usize = 0;
        while i < keywords.len()
            invariant
                i <= keywords@.len(),
                ks@.len() == i,
                forall|j: int| 0 <= j < i ==> (#[trigger] ks@[j])@ == keywords@[j]@,
            decreases keywords@.len() - i,
        {
            ks.push(String::from_str(keywords[i]));
            i = i + 1;
        }
        BuiltInEntry {
            id: String::from_str(id),
            name: String::from_str(name),
            description: String::from_str(description),
            keywords: ks,
            feature,
        }
    }
}

/// What the clipboard history entry looks like.
pub open spec fn is_clipboard_entry(e: BuiltInEntry) -> bool {
    &&& e.id@ == "builtin-clipboard-history"@
    &&& e.name@ == "Clipboard History"@
    &&& e.description@ == "View and manage your clipboard history"@
    &&& e.keywords@.len() == 4
    &&& e.keywords@[0]@ == "clipboard"@
    &&& e.keywords@[1]@ == "history"@
    &&& e.keywords@[2]@ == "paste"@
    &&& e.keywords@[3]@ == "copy"@
    &&& e.feature == BuiltInFeature::ClipboardHistory
}

/// What the application launcher entry looks like.
pub open spec fn is_app_launcher_entry(e: BuiltInEntry) -> bool {
    &&& e.id@ == "builtin-app-launcher"@
    &&& e.name@ == "App Launcher"@
    &&& e.description@ == "Search and launch installed applications"@
    &&& e.keywords@.len() == 4
    &&& e.keywords@[0]@ == "app"@
    &&& e.keywords@[1]@ == "launch"@
    &&& e.keywords@[2]@ == "open"@
    &&& e.keywords@[3]@ == "application"@
    &&& e.feature == BuiltInFeature::AppLauncher
}

/// The enabled built-in entries, in their fixed order: clipboard
/// history first, then the application launcher, each exactly when its
/// switch is on.
pub fn get_builtin_entries(config: &BuiltInConfig) -> (r: Vec<BuiltInEntry>)
    ensures
        r@.len() == (if config.clipboard_history { 1int } else { 0int }) + (if config.app_launcher {
            1int
        } else {
            0int
        }),
        config.clipboard_history ==> is_clipboard_entry(r@[0]),
        config.app_launcher ==> is_app_launcher_entry(
            r@[if config.clipboard_history { 1int } else { 0int }],
        ),
{
    let mut entries: Vec<BuiltInEntry> = Vec::new();
    if config.clipboard_history {
        let mut ks: Vec<&str> = Vec::new();
        ks.push("clipboard");
        ks.push("history");
        ks.push("paste");
        ks.push("copy");
        entries.push(
            BuiltInEntry::new(
                "builtin-clipboard-history",
                "Clipboard History",
                "View and manage your clipboard history",
                ks,
                BuiltInFeature::ClipboardHistory,
            ),
        );
    }
    if config.app_launcher {
        let mut ks: Vec<&str> = Vec::new();
        ks.push("app");
        ks.push("launch");
        ks.push("open");
        ks.push("application");
        entries.push(
            BuiltInEntry::new(
                "builtin-app-launcher",
                "App Launcher",
                "Search and launch installed applications",
                ks,
                BuiltInFeature::AppLauncher,
            ),
        );
    }
    entries
}

} // verus!
