//! The tray menu's commands.
use vstd::prelude::*;

verus! {

/// What the user picked.
#[derive(Debug, Clone, Copy, PartialEq, Eq, Structural)]
pub enum Command {
    OpenSettings,
    ReinstallHooks,
    ToggleAutostart,
    Quit,
}

} // verus!
