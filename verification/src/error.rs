//! The failures that the session, the channel and the command operations
//! report, and the text shown for each.

use vstd::prelude::*;

verus! {

/// Why a shell channel refused an operation or ended.
#[derive(Clone, Copy, Debug, PartialEq, Eq, Structural)]
pub enum ChannelError {
    /// The channel could not be opened on the session.
    OpenFailed,
    /// The session already has its channel.
    AlreadyOpen,
    /// The readiness handshake has not finished.
    NotReady,
    /// A command is still in flight.
    Busy,
    /// The channel has ended; a new one must be opened.
    Closed,
}

/// Why an operation failed.
#[derive(Clone, Copy, Debug, PartialEq, Eq, Structural)]
pub enum Error {
    /// The endpoint is unreachable or the transport failed.
    Network,
    /// The key could not be loaded or the server rejected it.
    Auth,
    /// The shell channel failed.
    Channel(ChannelError),
    /// No session or channel is held.
    NotConnected,
}

/// The text shown for `error`.
pub open spec fn message_of(error: Error) -> Seq<char> {
    match error {
        Error::Network => "SSH connection failed"@,
        Error::Auth => "SSH authentication failed"@,
        Error::Channel(ChannelError::OpenFailed) => "SSH channel could not be opened"@,
        Error::Channel(ChannelError::AlreadyOpen) => "SSH channel already open"@,
        Error::Channel(ChannelError::NotReady) => "SSH channel not ready"@,
        Error::Channel(ChannelError::Busy) => "SSH channel busy"@,
        Error::Channel(ChannelError::Closed) => "SSH channel closed"@,
        Error::NotConnected => "SSH session not connected"@,
    }
}

impl Error {
    /// The text shown to the user for this error.
    pub fn message(&self) -> (text: String)
        ensures
            text@ == message_of(*self),
    {
        match self {
            Error::Network => "SSH connection failed".to_owned(),
            Error::Auth => "SSH authentication failed".to_owned(),
            Error::Channel(ChannelError::OpenFailed) => {
                "SSH channel could not be opened".to_owned()
            },
            Error::Channel(ChannelError::AlreadyOpen) => "SSH channel already open".to_owned(),
            Error::Channel(ChannelError::NotReady) => "SSH channel not ready".to_owned(),
            Error::Channel(ChannelError::Busy) => "SSH channel busy".to_owned(),
            Error::Channel(ChannelError::Closed) => "SSH channel closed".to_owned(),
            Error::NotConnected => "SSH session not connected".to_owned(),
        }
    }
}

} // verus!
