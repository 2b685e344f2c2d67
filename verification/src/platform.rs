//! The operating systems the shell runs on, and what differs between them.

use vstd::prelude::*;

verus! {

/// The operating system the shell was built for.
#[derive(Clone, Copy, Debug, PartialEq, Eq, Structural)]
pub enum Platform {
    MacOs,
    Linux,
    Windows,
    /// Any other system: windows open with plain chrome and nothing is handed
    /// to a system opener.
    Other,
}

impl Platform {
    /// Whether windows carry an overlay title bar, which needs the title-bar
    /// script injected into the page.
    pub open spec fn overlay_titlebar(self) -> bool {
        self == Platform::MacOs
    }

    /// Whether the system keeps the reload chord for itself, so that the shell
    /// must not register it.
    pub open spec fn reload_chord_reserved(self) -> bool {
        self == Platform::MacOs
    }

    /// Whether windows carry an overlay title bar.
    pub fn supports_overlay_titlebar(self) -> (b: bool)
        ensures
            b == self.overlay_titlebar(),
    {
        match self {
            Platform::MacOs => true,
            _ => false,
        }
    }

    /// Whether the reload chord belongs to the system.
    pub fn reserves_reload_chord(self) -> (b: bool)
        ensures
            b == self.reload_chord_reserved(),
    {
        match self {
            Platform::MacOs => true,
            _ => false,
        }
    }
}

} // verus!
