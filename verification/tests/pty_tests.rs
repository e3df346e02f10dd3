use script_kit_core::PtyManager;

#[test]
fn test_pty_new_default_size() {
    let pty = PtyManager::new().unwrap();
    assert_eq!(pty.size(), (80, 24));
}

#[test]
fn test_pty_with_size() {
    let pty = PtyManager::with_size(120, 40).unwrap();
    assert_eq!(pty.size(), (120, 40));
}

#[test]
fn test_pty_resize() {
    let mut pty = PtyManager::new().unwrap();
    pty.resize(100, 30).unwrap();
    assert_eq!(pty.size(), (100, 30));
}

#[test]
fn test_pty_default() {
    let pty = PtyManager::default();
    assert_eq!(pty.size(), (80, 24));
}
