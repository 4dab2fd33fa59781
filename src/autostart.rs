//! Start with the user session: the decision part of switching it on or
//! off. Reading and writing the setting is the caller's work.

use vstd::prelude::*;

verus! {

/// A change to the start-with-session setting.
#[derive(Debug, Clone, Copy, PartialEq, Eq, Structural)]
pub enum AutostartChange {
    Enable,
    Disable,
}

/// The change that toggles the setting: disable it when it is enabled,
/// enable it otherwise.
pub fn toggle_plan(enabled: bool) -> (r: AutostartChange)
    ensures
        r == (if enabled {
            AutostartChange::Disable
        } else {
            AutostartChange::Enable
        }),
{
    if enabled {
        AutostartChange::Disable
    } else {
        AutostartChange::Enable
    }
}

/// The outcome of a toggle, given the change that was made and how writing
/// it went: on success, whether the setting is now enabled; on failure, the
/// writer's error.
pub fn toggle_autostart(change: AutostartChange, written: Result<(), String>) -> (r: Result<bool, String>)
    ensures
        match written {
            Ok(_) => r == Ok::<bool, String>(change == AutostartChange::Enable),
            Err(e) => r == Err::<bool, String>(e),
        },
{
    match written {
        Ok(_) => Ok(change == AutostartChange::Enable),
        Err(e) => Err(e),
    }
}

} // verus!
