//! The theme adapter: the bridge from the application theme to the
//! terminal's color contract.
//!
//! A [`crate::color::ColorRef`] in a grid cell is resolved to a
//! concrete `0xRRGGBB` value only here, at render time: default
//! foreground and background come from the theme, indexed colors from
//! the standard xterm 256-color palette. A theme change therefore
//! means a new adapter value — never a grid mutation — and an adapter
//! is immutable once built, safe to read from any number of sessions.

use vstd::prelude::*;

use crate::color::ColorRef;

verus! {

/// The standard xterm palette entry for the 16 base ANSI colors.
pub open spec fn spec_ansi_base(i: int) -> u32 {
    if i == 0 {
        0x000000
    } else if i == 1 {
        0xCD0000
    } else if i == 2 {
        0x00CD00
    } else if i == 3 {
        0xCDCD00
    } else if i == 4 {
        0x0000EE
    } else if i == 5 {
        0xCD00CD
    } else if i == 6 {
        0x00CDCD
    } else if i == 7 {
        0xE5E5E5
    } else if i == 8 {
        0x7F7F7F
    } else if i == 9 {
        0xFF0000
    } else if i == 10 {
        0x00FF00
    } else if i == 11 {
        0xFFFF00
    } else if i == 12 {
        0x5C5CFF
    } else if i == 13 {
        0xFF00FF
    } else if i == 14 {
        0x00FFFF
    } else {
        0xFFFFFF
    }
}

/// One channel level of the 6×6×6 color cube: 0, then 95 to 255 in
/// steps of 40, as xterm defines it.
pub open spec fn spec_cube_level(x: int) -> int {
    if x == 0 {
        0
    } else {
        55 + 40 * x
    }
}

/// The standard xterm 256-color palette: 16 base colors, the 6×6×6
/// color cube, then the 24-step grayscale ramp.
pub open spec fn spec_palette(i: int) -> u32 {
    if i < 16 {
        spec_ansi_base(i)
    } else if i < 232 {
        let k = i - 16;
        let r = spec_cube_level(k / 36);
        let g = spec_cube_level((k / 6) % 6);
        let b = spec_cube_level(k % 6);
        (r * 0x10000 + g * 0x100 + b) as u32
    } else {
        let v = 8 + 10 * (i - 232);
        (v * 0x10000 + v * 0x100 + v) as u32
    }
}

/// Adapts an application theme to the terminal's color contract.
///
/// Colors are `0xRRGGBB` values. The 16-slot ANSI palette is the fixed
/// standard table; only the default and selection colors come from the
/// theme.
#[derive(Debug, Clone, Copy, PartialEq, Eq, Structural)]
pub struct ThemeAdapter {
    /// Primary background color.
    background: u32,
    /// Primary foreground color.
    foreground: u32,
    /// Cursor color.
    cursor: u32,
    /// Selection background color.
    selection_background: u32,
    /// Selection foreground color.
    selection_foreground: u32,
}

/// What a color reference means under an adapter, as a `0xRRGGBB`
/// value.
pub open spec fn spec_resolve(t: ThemeAdapter, c: ColorRef) -> u32 {
    match c {
        ColorRef::DefaultForeground => t.spec_foreground(),
        ColorRef::DefaultBackground => t.spec_background(),
        ColorRef::Indexed(i) => spec_palette(i as int),
        ColorRef::Rgb(r, g, b) => (r * 0x10000 + g * 0x100 + b) as u32,
    }
}

impl ThemeAdapter {
    pub closed spec fn spec_background(&self) -> u32 {
        self.background
    }

    pub closed spec fn spec_foreground(&self) -> u32 {
        self.foreground
    }

    pub closed spec fn spec_cursor(&self) -> u32 {
        self.cursor
    }

    pub closed spec fn spec_selection_background(&self) -> u32 {
        self.selection_background
    }

    pub closed spec fn spec_selection_foreground(&self) -> u32 {
        self.selection_foreground
    }

    /// An adapter with explicit colors. Selection colors default to
    /// the cursor color on the background, until
    /// [`ThemeAdapter::with_selection`] overrides them.
    pub fn new(background: u32, foreground: u32, cursor: u32) -> (r: ThemeAdapter)
        ensures
            r.spec_background() == background,
            r.spec_foreground() == foreground,
            r.spec_cursor() == cursor,
            r.spec_selection_background() == cursor,
            r.spec_selection_foreground() == background,
    {
        ThemeAdapter {
            background,
            foreground,
            cursor,
            selection_background: cursor,
            selection_foreground: background,
        }
    }

    /// The default dark colors: near-black background, light gray
    /// text, white cursor.
    pub fn dark_default() -> (r: ThemeAdapter)
        ensures
            r.spec_background() == 0x1e1e1e,
            r.spec_foreground() == 0xd4d4d4,
            r.spec_cursor() == 0xffffff,
            r.spec_selection_background() == 0xffffff,
            r.spec_selection_foreground() == 0x1e1e1e,
    {
        ThemeAdapter::new(0x1e1e1e, 0xd4d4d4, 0xffffff)
    }

    /// The default light colors: white background, dark gray text,
    /// black cursor.
    pub fn light_default() -> (r: ThemeAdapter)
        ensures
            r.spec_background() == 0xffffff,
            r.spec_foreground() == 0x333333,
            r.spec_cursor() == 0x000000,
            r.spec_selection_background() == 0x000000,
            r.spec_selection_foreground() == 0xffffff,
    {
        ThemeAdapter::new(0xffffff, 0x333333, 0x000000)
    }

    /// The background color.
    pub fn background(&self) -> (r: u32)
        ensures
            r == self.spec_background(),
    {
        self.background
    }

    /// The foreground color.
    pub fn foreground(&self) -> (r: u32)
        ensures
            r == self.spec_foreground(),
    {
        self.foreground
    }

    /// The cursor color.
    pub fn cursor(&self) -> (r: u32)
        ensures
            r == self.spec_cursor(),
    {
        self.cursor
    }

    /// The selection background color.
    pub fn selection_background(&self) -> (r: u32)
        ensures
            r == self.spec_selection_background(),
    {
        self.selection_background
    }

    /// The selection foreground color.
    pub fn selection_foreground(&self) -> (r: u32)
        ensures
            r == self.spec_selection_foreground(),
    {
        self.selection_foreground
    }

    /// The adapter with explicit selection colors.
    pub fn with_selection(self, background: u32, foreground: u32) -> (r: ThemeAdapter)
        ensures
            r.spec_background() == self.spec_background(),
            r.spec_foreground() == self.spec_foreground(),
            r.spec_cursor() == self.spec_cursor(),
            r.spec_selection_background() == background,
            r.spec_selection_foreground() == foreground,
    {
        ThemeAdapter { selection_background: background, selection_foreground: foreground, ..self }
    }

    /// Resolves a cell's color reference to a concrete `0xRRGGBB`
    /// value; see [`spec_resolve`].
    pub fn resolve(&self, c: ColorRef) -> (r: u32)
        ensures
            r == spec_resolve(*self, c),
    {
        match c {
            ColorRef::DefaultForeground => self.foreground,
            ColorRef::DefaultBackground => self.background,
            ColorRef::Indexed(i) => palette(i),
            ColorRef::Rgb(r, g, b) => (r as u32) * 0x10000 + (g as u32) * 0x100 + (b as u32),
        }
    }
}

impl Default for ThemeAdapter {
    /// The default dark adapter.
    fn default() -> (r: ThemeAdapter)
        ensures
            r.spec_background() == 0x1e1e1e,
            r.spec_foreground() == 0xd4d4d4,
            r.spec_cursor() == 0xffffff,
    {
        ThemeAdapter::dark_default()
    }
}

/// The standard xterm 256-color palette; see [`spec_palette`].
pub fn palette(i: u8) -> (r: u32)
    ensures
        r == spec_palette(i as int),
{
    if i < 16 {
        let v: u32 = if i == 0 {
            0x000000
        } else if i == 1 {
            0xCD0000
        } else if i == 2 {
            0x00CD00
        } else if i == 3 {
            0xCDCD00
        } else if i == 4 {
            0x0000EE
        } else if i == 5 {
            0xCD00CD
        } else if i == 6 {
            0x00CDCD
        } else if i == 7 {
            0xE5E5E5
        } else if i == 8 {
            0x7F7F7F
        } else if i == 9 {
            0xFF0000
        } else if i == 10 {
            0x00FF00
        } else if i == 11 {
            0xFFFF00
        } else if i == 12 {
            0x5C5CFF
        } else if i == 13 {
            0xFF00FF
        } else if i == 14 {
            0x00FFFF
        } else {
            0xFFFFFF
        };
        v
    } else if i < 232 {
        let k: u32 = (i - 16) as u32;
        let r: u32 = cube_level(k / 36);
        let g: u32 = cube_level((k / 6) % 6);
        let b: u32 = cube_level(k % 6);
        r * 0x10000 + g * 0x100 + b
    } else {
        let v: u32 = 8 + 10 * ((i - 232) as u32);
        v * 0x10000 + v * 0x100 + v
    }
}

/// One channel level of the color cube; see [`spec_cube_level`].
fn cube_level(x: u32) -> (r: u32)
    requires
        x <= 5,
    ensures
        r as int == spec_cube_level(x as int),
{
    if x == 0 {
        0
    } else {
        55 + 40 * x
    }
}

} // verus!
