//! PTY session bookkeeping: the dimensions negotiated with the child
//! process.
//!
//! The operating-system side of the pseudo-terminal — spawning the
//! shell, reading and writing the byte stream, signalling the child on
//! resize — is inherently I/O and lives in the surrounding
//! application. What the rest of the system needs from a session is its
//! current size, kept here: the application calls [`PtyManager::resize`]
//! together with [`crate::terminal::TerminalHandle::resize`] so the
//! child process and the grid always agree on the dimensions.

use vstd::prelude::*;

verus! {

/// Declares the standard I/O error type, so the session interface can
/// carry it; nothing is assumed about its values.
#[verifier::external_type_specification]
#[verifier::external_body]
pub struct ExIoError(std::io::Error);

/// Manages a pseudo-terminal session's negotiated dimensions.
#[derive(Debug)]
pub struct PtyManager {
    /// Terminal dimensions (columns, rows).
    size: (u16, u16),
}

impl PtyManager {
    /// The session's dimensions, as a spec value.
    pub closed spec fn spec_size(&self) -> (u16, u16) {
        self.size
    }

    /// A session record with the standard 80×24 dimensions.
    pub fn new() -> (r: std::io::Result<PtyManager>)
        ensures
            r is Ok,
            r matches Ok(p) ==> p.spec_size() == (80u16, 24u16),
    {
        Ok(PtyManager { size: (80, 24) })
    }

    /// A session record with the given dimensions.
    pub fn with_size(cols: u16, rows: u16) -> (r: std::io::Result<PtyManager>)
        ensures
            r is Ok,
            r matches Ok(p) ==> p.spec_size() == (cols, rows),
    {
        Ok(PtyManager { size: (cols, rows) })
    }

    /// Records new dimensions; the application forwards them to the
    /// child process as its window-size change.
    pub fn resize(&mut self, cols: u16, rows: u16) -> (r: std::io::Result<()>)
        ensures
            r is Ok,
            final(self).spec_size() == (cols, rows),
    {
        self.size = (cols, rows);
        Ok(())
    }

    /// The current dimensions as (columns, rows).
    pub fn size(&self) -> (r: (u16, u16))
        ensures
            r == self.spec_size(),
    {
        self.size
    }
}

impl Default for PtyManager {
    /// A standard 80×24 session record.
    fn default() -> (r: PtyManager)
        ensures
            r.spec_size() == (80u16, 24u16),
    {
        match PtyManager::new() {
            Ok(p) => p,
            Err(_) => {
                proof {
                    assert(false);
                }
                PtyManager { size: (80, 24) }
            },
        }
    }
}

} // verus!
