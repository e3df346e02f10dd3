use script_kit_core::ColorRef;
use script_kit_core::ThemeAdapter;
use script_kit_core::theme_adapter::palette;

#[test]
fn test_dark_default_colors() {
    let adapter = ThemeAdapter::dark_default();
    assert_eq!(adapter.background(), 0x1e1e1e);
    assert_eq!(adapter.foreground(), 0xd4d4d4);
    assert_eq!(adapter.cursor(), 0xffffff);
}

#[test]
fn test_light_default_colors() {
    let adapter = ThemeAdapter::light_default();
    assert_eq!(adapter.background(), 0xffffff);
    assert_eq!(adapter.foreground(), 0x333333);
    assert_eq!(adapter.cursor(), 0x000000);
}

#[test]
fn test_with_selection() {
    let adapter = ThemeAdapter::dark_default().with_selection(0x264f78, 0xffffff);
    assert_eq!(adapter.selection_background(), 0x264f78);
    assert_eq!(adapter.selection_foreground(), 0xffffff);
}

#[test]
fn test_resolve_defaults() {
    let adapter = ThemeAdapter::dark_default();
    assert_eq!(adapter.resolve(ColorRef::DefaultForeground), 0xd4d4d4);
    assert_eq!(adapter.resolve(ColorRef::DefaultBackground), 0x1e1e1e);
    assert_eq!(adapter.resolve(ColorRef::Rgb(0x12, 0x34, 0x56)), 0x123456);
}

#[test]
fn test_palette_table() {
    // Base colors, one cube entry and one grayscale entry, by the
    // xterm definitions.
    assert_eq!(palette(1), 0xCD0000);
    assert_eq!(palette(15), 0xFFFFFF);
    // 196 = 16 + 36*5: pure red at full cube level.
    assert_eq!(palette(196), 0xFF0000);
    // 21 = 16 + 5: pure blue at full cube level.
    assert_eq!(palette(21), 0x0000FF);
    // First and last grayscale steps.
    assert_eq!(palette(232), 0x080808);
    assert_eq!(palette(255), 0xEEEEEE);
}
