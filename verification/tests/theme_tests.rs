use script_kit_core::theme::ColorScheme;
use script_kit_core::theme::Theme;

#[test]
fn test_default_theme() {
    let theme = Theme::default();
    assert_eq!(theme.colors.background.main, 0x1e1e1e);
    assert_eq!(theme.colors.text.primary, 0xffffff);
    assert_eq!(theme.colors.accent.selected, 0x007acc);
    assert_eq!(theme.colors.ui.border, 0x464647);
}

#[test]
fn test_color_scheme_default() {
    let scheme = ColorScheme::default();
    assert_eq!(scheme.background.title_bar, 0x2d2d30);
    assert_eq!(scheme.text.secondary, 0xe0e0e0);
    assert_eq!(scheme.ui.success, 0x00ff00);
}

#[test]
fn test_dark_default() {
    let scheme = ColorScheme::dark_default();
    assert_eq!(scheme.background.main, 0x1e1e1e);
    assert_eq!(scheme.text.primary, 0xffffff);
    assert_eq!(scheme.background.title_bar, 0x2d2d30);
    assert_eq!(scheme.ui.success, 0x00ff00);
}

#[test]
fn test_light_default() {
    let scheme = ColorScheme::light_default();
    assert_eq!(scheme.background.main, 0xffffff);
    assert_eq!(scheme.text.primary, 0x000000);
    assert_eq!(scheme.background.title_bar, 0xf3f3f3);
    assert_eq!(scheme.ui.border, 0xd0d0d0);
}
