//! Types for the window-directory collaborators.
//!
//! Looking a window up by title and enumerating visible windows are thin
//! queries over the OS window registry, performed by the unverified driver;
//! only their data types live here so callers share one vocabulary.

use vstd::prelude::*;

verus! {

/// A window identifier paired with its title, as produced by enumerating the
/// visible top-level windows.
#[derive(Debug)]
pub struct HwndName {
    pub hwnd: isize,
    pub window_name: String,
}

/// Failure of a find-window-by-title query.
#[derive(Clone, Copy, Debug, PartialEq, Eq, Structural)]
pub enum FWError {
    /// No window with the given title exists, or the query itself failed.
    NotFoundOrFault,
}

/// Failure of a window enumeration.
#[derive(Clone, Copy, Debug, PartialEq, Eq, Structural)]
pub enum WLError {
    /// The OS enumeration call reported failure.
    EnumWindowsError,
}

} // verus!
