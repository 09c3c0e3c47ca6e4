//! Start with Windows, through the per-user `Run` key.
//!
//! `HKCU\Software\Microsoft\Windows\CurrentVersion\Run` is enough because the
//! app runs unelevated. Reading and writing the key is Win32; what gets
//! written, and what each outcome means, is here.
use vstd::prelude::*;

use crate::text::{decimal, push_decimal, push_str};

verus! {

/// The key autostart entries live under, below `HKEY_CURRENT_USER`.
pub const RUN_KEY: &'static str = "Software\\Microsoft\\Windows\\CurrentVersion\\Run";

/// The name of our entry.
pub const VALUE_NAME: &'static str = "altoggle";

/// `ERROR_SUCCESS`
pub const ERROR_SUCCESS: u32 = 0;

/// The command line to register for the executable at `exe`.
///
/// Quoted, because an unquoted path containing a space is parsed as several
/// arguments.
pub fn command_for(exe: &str) -> (r: String)
    ensures
        r@ == seq!['"'] + exe@ + seq!['"'],
{
    let mut s = String::new();
    crate::text::push_char(&mut s, '"');
    push_str(&mut s, exe);
    crate::text::push_char(&mut s, '"');
    s
}

/// Whether autostart is on: an entry is registered, whatever it says.
pub fn is_enabled(registered: &Option<String>) -> (r: bool)
    ensures
        r == registered is Some,
{
    registered.is_some()
}

/// The outcome of removing the entry, from the delete's status code and
/// whether the entry is gone now. Deleting something already absent is the
/// state we wanted anyway.
pub fn removal_result(rc: u32, gone: bool) -> (r: Result<(), String>)
    ensures
        r is Ok <==> (rc == ERROR_SUCCESS || gone),
        r matches Err(m) ==> m@ == "could not remove the Run entry (error "@ + decimal(rc as nat)
            + ")"@,
{
    if rc == ERROR_SUCCESS || gone {
        Ok(())
    } else {
        let mut m = String::new();
        push_str(&mut m, "could not remove the Run entry (error ");
        push_decimal(&mut m, rc as u64);
        push_str(&mut m, ")");
        Err(m)
    }
}

/// The outcome of writing the entry, from the write's status code.
pub fn write_result(rc: u32) -> (r: Result<(), String>)
    ensures
        r is Ok <==> rc == ERROR_SUCCESS,
        r matches Err(m) ==> m@ == "could not write the Run entry (error "@ + decimal(rc as nat) + ")"@,
{
    if rc == ERROR_SUCCESS {
        Ok(())
    } else {
        let mut m = String::new();
        push_str(&mut m, "could not write the Run entry (error ");
        push_decimal(&mut m, rc as u64);
        push_str(&mut m, ")");
        Err(m)
    }
}

/// The warning when autostart points at a different executable than the
/// running one, or `None` when it points here.
///
/// The tick would otherwise claim "starts with Windows" while silently
/// launching some other build.
pub fn stale_warning(registered: &str, current: &str) -> (r: Option<String>)
    ensures
        r is None <==> registered@ == current@,
        r matches Some(m) ==> m@ == "autostart points at "@ + registered@ + ", not this executable ("@
            + current@ + "); toggle it off and on to repoint it"@,
{
    if crate::text::str_eq(registered, current) {
        return None;
    }
    let mut m = String::new();
    push_str(&mut m, "autostart points at ");
    push_str(&mut m, registered);
    push_str(&mut m, ", not this executable (");
    push_str(&mut m, current);
    push_str(&mut m, "); toggle it off and on to repoint it");
    Some(m)
}

} // verus!
