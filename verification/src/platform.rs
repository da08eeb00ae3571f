//! The operating-system family the harness runs on.

use vstd::prelude::*;

verus! {

/// The platform families that the harness distinguishes.
#[derive(Clone, Copy, Debug, PartialEq, Eq, Structural)]
pub enum Platform {
    /// Microsoft Windows.
    Windows,
    /// Every other platform (treated as Unix-like).
    Other,
}

/// Whether `platform` is Windows.
pub fn windows(platform: Platform) -> (b: bool)
    ensures
        b == (platform == Platform::Windows),
{
    match platform {
        Platform::Windows => true,
        Platform::Other => false,
    }
}

} // verus!
