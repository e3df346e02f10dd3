//! Cell-level data for the terminal grid: color references, style flags
//! and the cell itself.
//!
//! A color in a cell is never a concrete pixel value; it is a
//! [`ColorRef`], resolved to RGB only at render time by the theme
//! adapter. This way a theme change repaints the screen without touching
//! the grid.

use vstd::prelude::*;

verus! {

/// A reference to a color, resolved at render time.
///
/// `DefaultForeground` and `DefaultBackground` name the theme's default
/// colors; `Indexed` is an ANSI palette slot (0-255); `Rgb` is a direct
/// 24-bit color.
#[derive(Clone, Copy, Debug, PartialEq, Eq, Structural)]
pub enum ColorRef {
    DefaultForeground,
    DefaultBackground,
    Indexed(u8),
    Rgb(u8, u8, u8),
}

/// Style flags of a cell: one bit per SGR attribute this core tracks.
#[derive(Clone, Copy, Debug, PartialEq, Eq, Structural)]
pub struct StyleFlags {
    pub bold: bool,
    pub italic: bool,
    pub underline: bool,
    pub strikethrough: bool,
    pub reverse: bool,
    pub invisible: bool,
}

impl StyleFlags {
    /// All flags off.
    pub fn none() -> (r: StyleFlags)
        ensures
            r == StyleFlags::spec_none(),
    {
        StyleFlags {
            bold: false,
            italic: false,
            underline: false,
            strikethrough: false,
            reverse: false,
            invisible: false,
        }
    }

    /// All flags off, as a spec value.
    pub open spec fn spec_none() -> StyleFlags {
        StyleFlags {
            bold: false,
            italic: false,
            underline: false,
            strikethrough: false,
            reverse: false,
            invisible: false,
        }
    }
}

/// The rendition applied to printed and cleared cells: foreground,
/// background and style flags. The grid keeps one current `Attributes`
/// value, mutated by SGR sequences.
#[derive(Clone, Copy, Debug, PartialEq, Eq, Structural)]
pub struct Attributes {
    pub fg: ColorRef,
    pub bg: ColorRef,
    pub flags: StyleFlags,
}

impl Attributes {
    /// The baseline rendition: default colors, no flags. `SGR 0` returns
    /// the grid's current attributes to this value.
    pub fn baseline() -> (r: Attributes)
        ensures
            r == Attributes::spec_baseline(),
    {
        Attributes { fg: ColorRef::DefaultForeground, bg: ColorRef::DefaultBackground, flags: StyleFlags::none() }
    }

    /// The baseline rendition, as a spec value.
    pub open spec fn spec_baseline() -> Attributes {
        Attributes {
            fg: ColorRef::DefaultForeground,
            bg: ColorRef::DefaultBackground,
            flags: StyleFlags::spec_none(),
        }
    }
}

/// What a cell displays: a glyph, or the continuation marker that fills
/// the trailing column of a double-width glyph. Continuation cells are
/// written only together with their leading cell, never on their own.
#[derive(Clone, Copy, Debug, PartialEq, Eq, Structural)]
pub enum Glyph {
    Char(char),
    WideContinuation,
}

/// One character position of the grid: a glyph plus its rendition.
#[derive(Clone, Copy, Debug, PartialEq, Eq, Structural)]
pub struct Cell {
    pub glyph: Glyph,
    pub fg: ColorRef,
    pub bg: ColorRef,
    pub flags: StyleFlags,
}

impl Cell {
    /// A blank cell carrying the given rendition: what erase operations,
    /// scrolled-in lines and resize padding fill with.
    pub fn blank(attrs: Attributes) -> (r: Cell)
        ensures
            r == Cell::spec_blank(attrs),
    {
        Cell { glyph: Glyph::Char(' '), fg: attrs.fg, bg: attrs.bg, flags: attrs.flags }
    }

    /// A blank cell under the given rendition, as a spec value.
    pub open spec fn spec_blank(attrs: Attributes) -> Cell {
        Cell { glyph: Glyph::Char(' '), fg: attrs.fg, bg: attrs.bg, flags: attrs.flags }
    }

    /// A glyph cell carrying the given rendition: what printing writes.
    pub fn glyph(c: char, attrs: Attributes) -> (r: Cell)
        ensures
            r == Cell::spec_glyph(c, attrs),
    {
        Cell { glyph: Glyph::Char(c), fg: attrs.fg, bg: attrs.bg, flags: attrs.flags }
    }

    /// The continuation marker written after a double-width glyph.
    pub fn wide_tail(attrs: Attributes) -> (r: Cell)
        ensures
            r == Cell::spec_wide_tail(attrs),
    {
        Cell { glyph: Glyph::WideContinuation, fg: attrs.fg, bg: attrs.bg, flags: attrs.flags }
    }

    /// A glyph cell under the given rendition, as a spec value.
    pub open spec fn spec_glyph(c: char, attrs: Attributes) -> Cell {
        Cell { glyph: Glyph::Char(c), fg: attrs.fg, bg: attrs.bg, flags: attrs.flags }
    }

    /// The continuation marker under the given rendition, as a spec value.
    pub open spec fn spec_wide_tail(attrs: Attributes) -> Cell {
        Cell { glyph: Glyph::WideContinuation, fg: attrs.fg, bg: attrs.bg, flags: attrs.flags }
    }
}

/// Whether this core renders the character as double-width. The ranges
/// cover the common East-Asian wide and fullwidth blocks; everything
/// else occupies one column.
pub open spec fn spec_is_wide(c: char) -> bool {
    let v = c as u32;
    ||| (0x1100 <= v <= 0x115F)  // Hangul Jamo leading consonants
    ||| (0x2E80 <= v <= 0x303E)  // CJK radicals and punctuation
    ||| (0x3041 <= v <= 0x33FF)  // Hiragana through CJK compatibility
    ||| (0x3400 <= v <= 0x4DBF)  // CJK extension A
    ||| (0x4E00 <= v <= 0x9FFF)  // CJK unified ideographs
    ||| (0xA000 <= v <= 0xA4CF)  // Yi syllables and radicals
    ||| (0xAC00 <= v <= 0xD7A3)  // Hangul syllables
    ||| (0xF900 <= v <= 0xFAFF)  // CJK compatibility ideographs
    ||| (0xFE30 <= v <= 0xFE4F)  // CJK compatibility forms
    ||| (0xFF00 <= v <= 0xFF60)  // Fullwidth forms
    ||| (0xFFE0 <= v <= 0xFFE6)  // Fullwidth signs
    ||| (0x20000 <= v <= 0x2FFFD)  // CJK extensions B and later
    ||| (0x30000 <= v <= 0x3FFFD)  // CJK extension G
}

/// Executable double-width test; see [`spec_is_wide`].
pub fn is_wide(c: char) -> (r: bool)
    ensures
        r == spec_is_wide(c),
{
    let v = c as u32;
    (0x1100 <= v && v <= 0x115F) || (0x2E80 <= v && v <= 0x303E) || (0x3041 <= v && v <= 0x33FF)
        || (0x3400 <= v && v <= 0x4DBF) || (0x4E00 <= v && v <= 0x9FFF) || (0xA000 <= v && v
        <= 0xA4CF) || (0xAC00 <= v && v <= 0xD7A3) || (0xF900 <= v && v <= 0xFAFF) || (0xFE30 <= v
        && v <= 0xFE4F) || (0xFF00 <= v && v <= 0xFF60) || (0xFFE0 <= v && v <= 0xFFE6) || (0x20000
        <= v && v <= 0x2FFFD) || (0x30000 <= v && v <= 0x3FFFD)
}

} // verus!
