use vstd::prelude::*;

verus! {

/// One of the three operating points, from the most conservative to the
/// most permissive.
#[derive(Clone, Copy, Debug, PartialEq, Eq, Structural)]
pub enum Profile {
    /// Strict power saving.
    Monk,
    /// Balanced.
    Eco,
    /// Full performance.
    Pro,
}

/// A request that a client may send to the daemon.
#[derive(Clone, Copy, Debug, PartialEq, Eq, Structural)]
pub enum DaemonCommand {
    SetProfile(Profile),
    ToggleWifi,
    ToggleBluetooth,
}

/// The profile the daemon requests until a client asks for another.
pub fn default_profile() -> (r: Profile)
    ensures
        r == Profile::Eco,
{
    Profile::Eco
}

} // verus!
