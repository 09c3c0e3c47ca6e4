//! Session transitions, and which of them mean the hooks must be reinstalled.
//!
//! Low-level hooks can be lost when the desktop switches: locking and
//! unlocking, connecting over RDP, fast user switching. Windows never reports
//! a lost hook, so the practical defence is to reinstall on the transitions we
//! can observe.
use vstd::prelude::*;

verus! {

/// `WM_WTSSESSION_CHANGE`.
pub const WM_WTSSESSION_CHANGE: u32 = 0x02B1;

/// `WTS_CONSOLE_CONNECT`
pub const WTS_CONSOLE_CONNECT: u32 = 0x1;

/// `WTS_REMOTE_CONNECT`
pub const WTS_REMOTE_CONNECT: u32 = 0x3;

/// `WTS_SESSION_LOGON`
pub const WTS_SESSION_LOGON: u32 = 0x5;

/// `WTS_SESSION_UNLOCK`
pub const WTS_SESSION_UNLOCK: u32 = 0x8;

/// How often the heartbeat wakes the main loop, in milliseconds: the
/// worst-case lag between the IME changing and the tray icon saying so.
pub const TICK_MS: u32 = 400;

/// Whether a session change brings a desktop back, and so calls for the
/// hooks to be reinstalled. Reinstalling on lock or disconnect would just
/// target a desktop nobody is at.
pub open spec fn brings_desktop_back(state: u32) -> bool {
    state == WTS_CONSOLE_CONNECT || state == WTS_REMOTE_CONNECT || state == WTS_SESSION_LOGON || state
        == WTS_SESSION_UNLOCK
}

/// Whether this session change (`wParam` of `WM_WTSSESSION_CHANGE`) calls
/// for reinstalling the hooks.
pub fn reinstalls_hooks(state: u32) -> (r: bool)
    ensures
        r == brings_desktop_back(state),
{
    state == WTS_CONSOLE_CONNECT || state == WTS_REMOTE_CONNECT || state == WTS_SESSION_LOGON || state
        == WTS_SESSION_UNLOCK
}

/// The name a session change is logged under.
pub fn state_name(state: u32) -> (r: &'static str)
    ensures
        r@ == if state == WTS_CONSOLE_CONNECT {
            "console connect"@
        } else if state == WTS_REMOTE_CONNECT {
            "remote connect"@
        } else if state == WTS_SESSION_LOGON {
            "session logon"@
        } else if state == WTS_SESSION_UNLOCK {
            "session unlock"@
        } else {
            "other"@
        },
{
    if state == WTS_CONSOLE_CONNECT {
        "console connect"
    } else if state == WTS_REMOTE_CONNECT {
        "remote connect"
    } else if state == WTS_SESSION_LOGON {
        "session logon"
    } else if state == WTS_SESSION_UNLOCK {
        "session unlock"
    } else {
        "other"
    }
}

} // verus!
