//! Launch-at-login integration, which no platform supports yet.
use vstd::prelude::*;

verus! {

/// Whether the app is registered to launch at login.
#[derive(Clone, Copy, Debug, PartialEq, Eq, Structural)]
pub enum StartupState {
    Unsupported,
    Disabled,
    Enabled,
}

/// Reports the launch-at-login state; no platform integration exists, so it
/// is always `Unsupported`.
pub fn get_startup_state() -> (state: StartupState)
    ensures
        state == StartupState::Unsupported,
{
    StartupState::Unsupported
}

/// Asks for launch at login to be switched on or off; without a platform
/// integration nothing changes and the state stays `Unsupported`.
pub fn set_startup_enabled(enabled: bool) -> (r: Result<StartupState, String>)
    ensures
        r == Ok::<StartupState, String>(StartupState::Unsupported),
{
    Ok(StartupState::Unsupported)
}

} // verus!
