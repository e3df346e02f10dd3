use script_kit_core::builtins::BuiltInEntry;
use script_kit_core::builtins::BuiltInFeature;
use script_kit_core::builtins::get_builtin_entries;
use script_kit_core::config::BuiltInConfig;

#[test]
fn test_builtin_config_default() {
    let config = BuiltInConfig::default();
    assert!(config.clipboard_history);
    assert!(config.app_launcher);
}

#[test]
fn test_builtin_config_custom() {
    let config = BuiltInConfig {
        clipboard_history: false,
        app_launcher: true,
    };
    assert!(!config.clipboard_history);
    assert!(config.app_launcher);
}

#[test]
fn test_get_builtin_entries_all_enabled() {
    let config = BuiltInConfig::default();
    let entries = get_builtin_entries(&config);

    assert_eq!(entries.len(), 2);

    let clipboard = entries.iter().find(|e| e.id == "builtin-clipboard-history");
    assert!(clipboard.is_some());
    let clipboard = clipboard.unwrap();
    assert_eq!(clipboard.name, "Clipboard History");
    assert_eq!(clipboard.feature, BuiltInFeature::ClipboardHistory);
    assert!(clipboard.keywords.contains(&"clipboard".to_string()));
    assert!(clipboard.keywords.contains(&"history".to_string()));
    assert!(clipboard.keywords.contains(&"paste".to_string()));
    assert!(clipboard.keywords.contains(&"copy".to_string()));

    let launcher = entries.iter().find(|e| e.id == "builtin-app-launcher");
    assert!(launcher.is_some());
    let launcher = launcher.unwrap();
    assert_eq!(launcher.name, "App Launcher");
    assert_eq!(launcher.feature, BuiltInFeature::AppLauncher);
    assert!(launcher.keywords.contains(&"app".to_string()));
    assert!(launcher.keywords.contains(&"launch".to_string()));
    assert!(launcher.keywords.contains(&"open".to_string()));
    assert!(launcher.keywords.contains(&"application".to_string()));
}

#[test]
fn test_get_builtin_entries_clipboard_only() {
    let config = BuiltInConfig {
        clipboard_history: true,
        app_launcher: false,
    };
    let entries = get_builtin_entries(&config);

    assert_eq!(entries.len(), 1);
    assert_eq!(entries[0].id, "builtin-clipboard-history");
    assert_eq!(entries[0].feature, BuiltInFeature::ClipboardHistory);
}

#[test]
fn test_get_builtin_entries_app_launcher_only() {
    let config = BuiltInConfig {
        clipboard_history: false,
        app_launcher: true,
    };
    let entries = get_builtin_entries(&config);

    assert_eq!(entries.len(), 1);
    assert_eq!(entries[0].id, "builtin-app-launcher");
    assert_eq!(entries[0].feature, BuiltInFeature::AppLauncher);
}

#[test]
fn test_get_builtin_entries_none_enabled() {
    let config = BuiltInConfig {
        clipboard_history: false,
        app_launcher: false,
    };
    let entries = get_builtin_entries(&config);

    assert!(entries.is_empty());
}

#[test]
fn test_builtin_feature_equality() {
    assert_eq!(
        BuiltInFeature::ClipboardHistory,
        BuiltInFeature::ClipboardHistory
    );
    assert_eq!(BuiltInFeature::AppLauncher, BuiltInFeature::AppLauncher);
    assert_ne!(
        BuiltInFeature::ClipboardHistory,
        BuiltInFeature::AppLauncher
    );

    assert_eq!(
        BuiltInFeature::App("Safari".to_string()),
        BuiltInFeature::App("Safari".to_string())
    );
    assert_ne!(
        BuiltInFeature::App("Safari".to_string()),
        BuiltInFeature::App("Chrome".to_string())
    );
    assert_ne!(
        BuiltInFeature::App("Safari".to_string()),
        BuiltInFeature::AppLauncher
    );
}

#[test]
fn test_builtin_entry_new() {
    let entry = BuiltInEntry::new(
        "test-id",
        "Test Entry",
        "Test description",
        vec!["test", "keyword"],
        BuiltInFeature::ClipboardHistory,
    );

    assert_eq!(entry.id, "test-id");
    assert_eq!(entry.name, "Test Entry");
    assert_eq!(entry.description, "Test description");
    assert_eq!(
        entry.keywords,
        vec!["test".to_string(), "keyword".to_string()]
    );
    assert_eq!(entry.feature, BuiltInFeature::ClipboardHistory);
}

#[test]
fn test_builtin_entry_clone() {
    let entry = BuiltInEntry::new(
        "test-id",
        "Test Entry",
        "Test description",
        vec!["test"],
        BuiltInFeature::AppLauncher,
    );

    let cloned = entry.clone();
    assert_eq!(entry.id, cloned.id);
    assert_eq!(entry.name, cloned.name);
    assert_eq!(entry.description, cloned.description);
    assert_eq!(entry.keywords, cloned.keywords);
    assert_eq!(entry.feature, cloned.feature);
}

#[test]
fn test_builtin_config_clone() {
    let config = BuiltInConfig {
        clipboard_history: true,
        app_launcher: false,
    };

    let cloned = config.clone();
    assert_eq!(config.clipboard_history, cloned.clipboard_history);
    assert_eq!(config.app_launcher, cloned.app_launcher);
}
