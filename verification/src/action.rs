//! Discrete terminal actions.
//!
//! The escape sequence parser classifies the incoming byte stream into
//! these actions; the grid applies them. The set is closed on purpose:
//! the grid matches on it exhaustively, so the whole state machine stays
//! auditable in one place.
//!
//! Numeric parameters come straight from the CSI parameter list. An
//! absent parameter is `None`: the parser never substitutes a default,
//! the grid supplies the command-specific one (1 for movement counts,
//! 0 for erase modes).

use vstd::prelude::*;

verus! {

/// An action decoded from the byte stream.
#[derive(Clone, Debug, PartialEq, Eq)]
pub enum Action {
    /// A printable character reached the screen.
    Print(char),
    LineFeed,
    CarriageReturn,
    Tab,
    Backspace,
    Bell,
    /// `CSI n A` — move the cursor up.
    CursorUp(Option<u16>),
    /// `CSI n B` — move the cursor down.
    CursorDown(Option<u16>),
    /// `CSI n C` — move the cursor right.
    CursorForward(Option<u16>),
    /// `CSI n D` — move the cursor left.
    CursorBack(Option<u16>),
    /// `CSI r ; c H` — absolute cursor position, 1-based.
    CursorPosition(Option<u16>, Option<u16>),
    /// `CSI n K` — erase in line (0: to end, 1: to start, 2: all).
    EraseInLine(Option<u16>),
    /// `CSI n J` — erase in display (0: to end, 1: to start, 2: all).
    EraseInDisplay(Option<u16>),
    /// `CSI ... m` — select graphic rendition; the full parameter list.
    SetGraphicRendition(Vec<Option<u16>>),
    /// `CSI n S` — scroll the region up.
    ScrollUp(Option<u16>),
    /// `CSI n T` — scroll the region down.
    ScrollDown(Option<u16>),
    /// `CSI t ; b r` — set the scroll region, 1-based inclusive bounds.
    SetScrollRegion(Option<u16>, Option<u16>),
    /// `ESC 7` or `CSI s` — save cursor position and attributes.
    SaveCursor,
    /// `ESC 8` or `CSI u` — restore the saved cursor.
    RestoreCursor,
    /// `CSI ? n h` / `CSI n h` — set a mode; the flag says whether the
    /// sequence carried the private-mode prefix.
    SetMode(bool, Option<u16>),
    /// `CSI ? n l` / `CSI n l` — reset a mode.
    ResetMode(bool, Option<u16>),
    /// `OSC 0/1/2 ; text` — window title bytes.
    WindowTitle(Vec<u8>),
    /// `ESC c` — full reset.
    Reset,
}

/// The mathematical shape of an [`Action`]: identical variants, with
/// sequences in place of vectors. Contracts and the parser model speak
/// of this type.
pub enum ActionView {
    Print(char),
    LineFeed,
    CarriageReturn,
    Tab,
    Backspace,
    Bell,
    CursorUp(Option<u16>),
    CursorDown(Option<u16>),
    CursorForward(Option<u16>),
    CursorBack(Option<u16>),
    CursorPosition(Option<u16>, Option<u16>),
    EraseInLine(Option<u16>),
    EraseInDisplay(Option<u16>),
    SetGraphicRendition(Seq<Option<u16>>),
    ScrollUp(Option<u16>),
    ScrollDown(Option<u16>),
    SetScrollRegion(Option<u16>, Option<u16>),
    SaveCursor,
    RestoreCursor,
    SetMode(bool, Option<u16>),
    ResetMode(bool, Option<u16>),
    WindowTitle(Seq<u8>),
    Reset,
}

impl View for Action {
    type V = ActionView;

    open spec fn view(&self) -> ActionView {
        match self {
            Action::Print(c) => ActionView::Print(*c),
            Action::LineFeed => ActionView::LineFeed,
            Action::CarriageReturn => ActionView::CarriageReturn,
            Action::Tab => ActionView::Tab,
            Action::Backspace => ActionView::Backspace,
            Action::Bell => ActionView::Bell,
            Action::CursorUp(n) => ActionView::CursorUp(*n),
            Action::CursorDown(n) => ActionView::CursorDown(*n),
            Action::CursorForward(n) => ActionView::CursorForward(*n),
            Action::CursorBack(n) => ActionView::CursorBack(*n),
            Action::CursorPosition(r, c) => ActionView::CursorPosition(*r, *c),
            Action::EraseInLine(m) => ActionView::EraseInLine(*m),
            Action::EraseInDisplay(m) => ActionView::EraseInDisplay(*m),
            Action::SetGraphicRendition(ps) => ActionView::SetGraphicRendition(ps@),
            Action::ScrollUp(n) => ActionView::ScrollUp(*n),
            Action::ScrollDown(n) => ActionView::ScrollDown(*n),
            Action::SetScrollRegion(t, b) => ActionView::SetScrollRegion(*t, *b),
            Action::SaveCursor => ActionView::SaveCursor,
            Action::RestoreCursor => ActionView::RestoreCursor,
            Action::SetMode(p, n) => ActionView::SetMode(*p, *n),
            Action::ResetMode(p, n) => ActionView::ResetMode(*p, *n),
            Action::WindowTitle(t) => ActionView::WindowTitle(t@),
            Action::Reset => ActionView::Reset,
        }
    }
}

} // verus!
