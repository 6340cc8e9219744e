use vstd::prelude::*;

verus! {

/// The phase of a session. `Failed` absorbs every later event.
#[derive(PartialEq, Eq, Structural, Clone, Copy, Debug)]
pub enum AppState {
    /// nothing started yet
    OnStartup,
    /// connecting to the relay and bringing up the transfer endpoint
    Connecting,
    /// both subsystems are up; the registration is to be sent
    PublishUser,
    /// registration sent; waiting for the relay's acknowledgement
    WaitForRegisterConfirmation,
    /// registered and idle
    Ready,
    /// bootstrap failed; no further protocol traffic
    Failed,
}

} // verus!
