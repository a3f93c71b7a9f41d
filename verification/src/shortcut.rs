//! The global shortcut's key combination, one per platform family.
//!
//! The chord is a configuration value resolved once at startup: a single
//! lookup from the platform to the combination the host registers. Both
//! chords are functionally equivalent; only the modifier key differs.

use vstd::prelude::*;

verus! {

/// The platform families the shell distinguishes when it picks the chord.
#[derive(Clone, Copy, Debug, PartialEq, Eq, Structural)]
pub enum Platform {
    MacOs,
    Windows,
    Linux,
}

/// The chord registered on each platform: the command key with shift and
/// space on macOS, the control key with shift and space elsewhere.
pub open spec fn shortcut_spec(p: Platform) -> Seq<char> {
    match p {
        Platform::MacOs => "Cmd+Shift+Space"@,
        Platform::Windows => "Ctrl+Shift+Space"@,
        Platform::Linux => "Ctrl+Shift+Space"@,
    }
}

/// The key combination the shell registers as its global shortcut on the
/// given platform.
pub fn shortcut_for(p: Platform) -> (s: &'static str)
    ensures
        s@ == shortcut_spec(p),
{
    match p {
        Platform::MacOs => "Cmd+Shift+Space",
        Platform::Windows => "Ctrl+Shift+Space",
        Platform::Linux => "Ctrl+Shift+Space",
    }
}

} // verus!
