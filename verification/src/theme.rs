//! Application color schemes: the named UI colors a theme provides.
//!
//! A theme is plain data — every color is a `0xRRGGBB` value — and the
//! dark and light defaults are fixed tables. Loading a theme file from
//! disk and detecting the system appearance are I/O and live in the
//! surrounding application, which hands the parsed values to these
//! types.

use vstd::prelude::*;

verus! {

/// Hex color representation.
pub type HexColor = u32;

/// Background color definitions.
#[derive(Debug, Clone, Copy, PartialEq, Eq, Structural)]
pub struct BackgroundColors {
    /// Main background.
    pub main: HexColor,
    /// Title bar background.
    pub title_bar: HexColor,
    /// Search box background.
    pub search_box: HexColor,
    /// Log panel background.
    pub log_panel: HexColor,
}

/// Text color definitions.
#[derive(Debug, Clone, Copy, PartialEq, Eq, Structural)]
pub struct TextColors {
    /// Primary text color.
    pub primary: HexColor,
    /// Secondary text color.
    pub secondary: HexColor,
    /// Tertiary text color.
    pub tertiary: HexColor,
    /// Muted text color.
    pub muted: HexColor,
    /// Dimmed text color.
    pub dimmed: HexColor,
}

/// Accent and highlight colors.
#[derive(Debug, Clone, Copy, PartialEq, Eq, Structural)]
pub struct AccentColors {
    /// Selected item highlight.
    pub selected: HexColor,
}

/// Border and UI element colors.
#[derive(Debug, Clone, Copy, PartialEq, Eq, Structural)]
pub struct UIColors {
    /// Border color.
    pub border: HexColor,
    /// Success color for logs.
    pub success: HexColor,
}

/// Complete color scheme definition.
#[derive(Debug, Clone, Copy, PartialEq, Eq, Structural)]
pub struct ColorScheme {
    pub background: BackgroundColors,
    pub text: TextColors,
    pub accent: AccentColors,
    pub ui: UIColors,
}

/// Complete theme definition.
#[derive(Debug, Clone, Copy, PartialEq, Eq, Structural)]
pub struct Theme {
    pub colors: ColorScheme,
}

/// The dark color scheme, as a spec value.
pub open spec fn spec_dark_scheme() -> ColorScheme {
    ColorScheme {
        background: BackgroundColors {
            main: 0x1e1e1e,
            title_bar: 0x2d2d30,
            search_box: 0x3c3c3c,
            log_panel: 0x0d0d0d,
        },
        text: TextColors {
            primary: 0xffffff,
            secondary: 0xe0e0e0,
            tertiary: 0x999999,
            muted: 0x808080,
            dimmed: 0x666666,
        },
        accent: AccentColors { selected: 0x007acc },
        ui: UIColors { border: 0x464647, success: 0x00ff00 },
    }
}

/// The light color scheme, as a spec value.
pub open spec fn spec_light_scheme() -> ColorScheme {
    ColorScheme {
        background: BackgroundColors {
            main: 0xffffff,
            title_bar: 0xf3f3f3,
            search_box: 0xececec,
            log_panel: 0xfafafa,
        },
        text: TextColors {
            primary: 0x000000,
            secondary: 0x333333,
            tertiary: 0x666666,
            muted: 0x999999,
            dimmed: 0xcccccc,
        },
        accent: AccentColors { selected: 0x0078d4 },
        ui: UIColors { border: 0xd0d0d0, success: 0x00a000 },
    }
}

impl ColorScheme {
    /// The dark mode color scheme.
    pub fn dark_default() -> (r: ColorScheme)
        ensures
            r == spec_dark_scheme(),
    {
        ColorScheme {
            background: BackgroundColors {
                main: 0x1e1e1e,
                title_bar: 0x2d2d30,
                search_box: 0x3c3c3c,
                log_panel: 0x0d0d0d,
            },
            text: TextColors {
                primary: 0xffffff,
                secondary: 0xe0e0e0,
                tertiary: 0x999999,
                muted: 0x808080,
                dimmed: 0x666666,
            },
            accent: AccentColors { selected: 0x007acc },
            ui: UIColors { border: 0x464647, success: 0x00ff00 },
        }
    }

    /// The light mode color scheme.
    pub fn light_default() -> (r: ColorScheme)
        ensures
            r == spec_light_scheme(),
    {
        ColorScheme {
            background: BackgroundColors {
                main: 0xffffff,
                title_bar: 0xf3f3f3,
                search_box: 0xececec,
                log_panel: 0xfafafa,
            },
            text: TextColors {
                primary: 0x000000,
                secondary: 0x333333,
                tertiary: 0x666666,
                muted: 0x999999,
                dimmed: 0xcccccc,
            },
            accent: AccentColors { selected: 0x0078d4 },
            ui: UIColors { border: 0xd0d0d0, success: 0x00a000 },
        }
    }
}

impl Default for ColorScheme {
    /// The dark scheme: the application's default appearance.
    fn default() -> (r: ColorScheme)
        ensures
            r == spec_dark_scheme(),
    {
        ColorScheme::dark_default()
    }
}

impl Default for Theme {
    /// A theme carrying the default color scheme.
    fn default() -> (r: Theme)
        ensures
            r.colors == spec_dark_scheme(),
    {
        Theme { colors: ColorScheme::dark_default() }
    }
}

} // verus!
