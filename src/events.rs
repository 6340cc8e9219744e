use vstd::prelude::*;

use crate::codec::DecodeError;

verus! {

/// Which subsystem failed to come up during bootstrap, with its cause.
#[derive(Debug, Clone, PartialEq, Eq)]
pub enum BootstrapError {
    /// the signaling connection to the relay could not be opened
    SignalingConnect(String),
    /// the peer-to-peer transfer endpoint could not be initialized
    TransportInit(String),
}

/// Why a command could not be placed on the outbound queue.
#[derive(Debug, Clone, PartialEq, Eq)]
pub enum SendError {
    /// the queue holds as many commands as it was made for
    QueueFull,
    /// the consuming side of the queue is gone
    Closed,
}

/// The closed set of failures that the session reports.
#[derive(Debug, Clone, PartialEq, Eq)]
pub enum AppError {
    /// bootstrap failed: the only fatal kind
    Bootstrap(BootstrapError),
    /// an inbound frame was not a message
    Decode(DecodeError),
    /// a command could not be queued
    Send(SendError),
    /// publishing or resolving an object failed
    Transfer(String),
    /// the relay reported that it could not decode one of our frames
    Server(String),
}

impl AppError {
    pub open spec fn spec_is_fatal(&self) -> bool {
        self is Bootstrap
    }

    /// Whether this failure ends the session.
    pub fn is_fatal(&self) -> (r: bool)
        ensures
            r == self.spec_is_fatal(),
    {
        matches!(self, AppError::Bootstrap(_))
    }
}

/// Events on the bus that feeds the session.
#[derive(Debug, Clone, PartialEq, Eq)]
pub enum AppEvent {
    /// both subsystems are up: time to register
    ReadyToPublishUser,
    /// the session may consider itself ready
    AllSystemsGo,
    /// the relay acknowledged the registration
    RegisterSuccess,
    /// the relay sent a full roster
    UpdateActiveUsersList(Vec<String>),
    /// a peer offered an object by its ticket
    IncomingTicket(String),
    /// a failure to report; bootstrap failures end the session
    FatalError(AppError),
}

} // verus!
