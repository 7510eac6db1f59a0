//! The session: one authenticated transport connection, from the first
//! attempt to reach the endpoint until it is closed.
//!
//! Connecting is a short exchange between the session and its caller. The
//! caller performs each step and reports how it went; the session says which
//! step comes next, or with which error the attempt ended:
//!
//! ```text
//! Connecting --TransportOpened--> LoadingKey --KeyLoaded--> Authenticating
//!     --AuthAccepted--> Connected
//! ```
//!
//! Any failure on the way, and `close`, leave the session `Closed` without a
//! transport handle. A session holds at most one handle and lets at most one
//! shell channel be open at a time.

use vstd::prelude::*;
use vstd::string::StringSliceAdditionalSpecFns;
use crate::channel::{after_send, send_result, ChannelModel, ShellChannel};
use crate::error::{ChannelError, Error};

verus! {

/// The handler of transport-level questions during the connection.
#[derive(Clone, Copy, Debug, PartialEq, Eq)]
pub struct Client {}

/// Where a session stands in its life.
#[derive(Clone, Copy, Debug, PartialEq, Eq, Structural)]
pub enum SessionState {
    /// The transport is being opened.
    Connecting,
    /// The transport is open; the private key is being loaded.
    LoadingKey,
    /// The key is loaded; the server is checking it.
    Authenticating,
    /// Authenticated and usable.
    Connected,
    /// Closed, or never connected.
    Closed,
}

/// How one step of connecting went.
pub enum ConnectEvent<H> {
    /// The endpoint was reached; this is the transport handle.
    TransportOpened(H),
    /// The endpoint could not be reached.
    TransportFailed,
    /// The private key was read.
    KeyLoaded,
    /// The private key is missing or malformed.
    KeyUnavailable,
    /// The server accepted the key.
    AuthAccepted,
    /// The server rejected the key.
    AuthRejected,
    /// The transport failed during authentication.
    AuthFailed,
}

/// What the caller does next while connecting.
#[derive(Clone, Copy, Debug, PartialEq, Eq, Structural)]
pub enum ConnectStep {
    /// Load the private key.
    LoadKey,
    /// Authenticate with the key.
    Authenticate,
    /// Nothing more: the session is connected.
    Connected,
    /// Give up: the attempt ended with this error.
    Failed(Error),
}

/// How a step of connecting went, without the handle.
pub enum ConnectOutcome {
    TransportOpened,
    TransportFailed,
    KeyLoaded,
    KeyUnavailable,
    AuthAccepted,
    AuthRejected,
    AuthFailed,
}

/// A session as a mathematical value.
pub struct SessionModel {
    pub user: Seq<char>,
    pub host: Seq<char>,
    pub port: u16,
    pub state: SessionState,
    /// Whether the session holds a transport handle.
    pub has_handle: bool,
    /// Whether the session's shell channel is open.
    pub channel_open: bool,
}

/// One transport connection to `user@host:port`, with its handle of type
/// `H` while it has one.
pub struct Session<H> {
    handle: Option<H>,
    user: String,
    host: String,
    port: u16,
    state: SessionState,
    channel_open: bool,
}

impl<H> View for ConnectEvent<H> {
    type V = ConnectOutcome;

    open spec fn view(&self) -> ConnectOutcome {
        match *self {
            ConnectEvent::TransportOpened(_) => ConnectOutcome::TransportOpened,
            ConnectEvent::TransportFailed => ConnectOutcome::TransportFailed,
            ConnectEvent::KeyLoaded => ConnectOutcome::KeyLoaded,
            ConnectEvent::KeyUnavailable => ConnectOutcome::KeyUnavailable,
            ConnectEvent::AuthAccepted => ConnectOutcome::AuthAccepted,
            ConnectEvent::AuthRejected => ConnectOutcome::AuthRejected,
            ConnectEvent::AuthFailed => ConnectOutcome::AuthFailed,
        }
    }
}

impl<H> View for Session<H> {
    type V = SessionModel;

    closed spec fn view(&self) -> SessionModel {
        SessionModel {
            user: self.user@,
            host: self.host@,
            port: self.port,
            state: self.state,
            has_handle: self.handle is Some,
            channel_open: self.channel_open,
        }
    }
}

impl<H> Session<H> {
    /// The transport handle that the session holds, if any.
    pub closed spec fn held(&self) -> Option<H> {
        self.handle
    }
}

/// A session without a transport, in `state`.
pub open spec fn without_transport(before: SessionModel, state: SessionState) -> SessionModel {
    SessionModel { state, has_handle: false, channel_open: false, ..before }
}

/// What the caller does after `outcome` on a session in `state`.
///
/// Each state of connecting has one outcome that leads on and failures that
/// end the attempt: an unreachable endpoint or a transport failure with
/// `Network`, a missing or rejected key with `Auth`. An outcome that the
/// state does not await ends the attempt with `Network`. A connected
/// session stays connected, and a closed one answers `NotConnected`.
pub open spec fn connect_step(state: SessionState, outcome: ConnectOutcome) -> ConnectStep {
    match (state, outcome) {
        (SessionState::Connecting, ConnectOutcome::TransportOpened) => ConnectStep::LoadKey,
        (SessionState::LoadingKey, ConnectOutcome::KeyLoaded) => ConnectStep::Authenticate,
        (SessionState::LoadingKey, ConnectOutcome::KeyUnavailable) => ConnectStep::Failed(
            Error::Auth,
        ),
        (SessionState::Authenticating, ConnectOutcome::AuthAccepted) => ConnectStep::Connected,
        (SessionState::Authenticating, ConnectOutcome::AuthRejected) => ConnectStep::Failed(
            Error::Auth,
        ),
        (SessionState::Connected, _) => ConnectStep::Connected,
        (SessionState::Closed, _) => ConnectStep::Failed(Error::NotConnected),
        _ => ConnectStep::Failed(Error::Network),
    }
}

/// The session after `outcome`.
pub open spec fn after_connect_event(
    before: SessionModel,
    outcome: ConnectOutcome,
) -> SessionModel {
    match connect_step(before.state, outcome) {
        ConnectStep::LoadKey => SessionModel {
            state: SessionState::LoadingKey,
            has_handle: true,
            ..before
        },
        ConnectStep::Authenticate => SessionModel { state: SessionState::Authenticating, ..before },
        ConnectStep::Connected => SessionModel { state: SessionState::Connected, ..before },
        ConnectStep::Failed(_) => without_transport(before, SessionState::Closed),
    }
}

/// What a session answers when asked to let a shell channel be opened.
pub open spec fn open_result(before: SessionModel) -> Result<(), Error> {
    if !(before.state is Connected) {
        Err(Error::NotConnected)
    } else if before.channel_open {
        Err(Error::Channel(ChannelError::AlreadyOpen))
    } else {
        Ok(())
    }
}

/// What a session answers when asked to send `command` on `channel`:
/// `NotConnected` unless the session is connected and has its channel open,
/// and else the line to write or the channel's refusal.
pub open spec fn session_send_result(
    session: SessionModel,
    channel: ChannelModel,
    command: Seq<u8>,
) -> Result<Seq<u8>, Error> {
    if !(session.state is Connected) || !session.channel_open {
        Err(Error::NotConnected)
    } else {
        match send_result(channel, command) {
            Ok(line) => Ok(line),
            Err(error) => Err(Error::Channel(error)),
        }
    }
}

impl Client {
    /// A handler.
    pub fn new() -> (client: Client) {
        Client {  }
    }

    /// Whether to go on with a server that presents `server_public_key`.
    ///
    /// Every key is accepted: the server's identity is not checked.
    pub fn check_server_key(&self, server_public_key: &[u8]) -> (accepted: bool)
        ensures
            accepted,
    {
        true
    }
}

impl<H> Session<H> {
    /// Starts connecting to `host:port` as `user`.
    ///
    /// The session is `Connecting` and holds no transport yet: the caller
    /// opens the transport and reports the outcome to
    /// `handle_connect_event`.
    pub fn connect(user: String, host: String, port: u16) -> (session: Session<H>)
        ensures
            session@ == (SessionModel {
                user: user@,
                host: host@,
                port,
                state: SessionState::Connecting,
                has_handle: false,
                channel_open: false,
            }),
    {
        Session {
            handle: None,
            user,
            host,
            port,
            state: SessionState::Connecting,
            channel_open: false,
        }
    }

    /// Takes the outcome of one step of connecting and says what comes
    /// next.
    ///
    /// The handle that comes with `TransportOpened` is kept if the session
    /// was `Connecting`, and dropped otherwise. When the attempt fails the
    /// session gives up its handle, which releases the transport.
    pub fn handle_connect_event(&mut self, event: ConnectEvent<H>) -> (step: ConnectStep)
        ensures
            step == connect_step(old(self)@.state, event@),
            final(self)@ == after_connect_event(old(self)@, event@),
            step is LoadKey ==> final(self).held() == Some(event->TransportOpened_0),
            (step is Authenticate || step is Connected) ==> final(self).held() == old(self).held(),
    {
        match (self.state, event) {
            (SessionState::Connecting, ConnectEvent::TransportOpened(handle)) => {
                self.handle = Some(handle);
                self.state = SessionState::LoadingKey;
                ConnectStep::LoadKey
            },
            (SessionState::LoadingKey, ConnectEvent::KeyLoaded) => {
                self.state = SessionState::Authenticating;
                ConnectStep::Authenticate
            },
            (SessionState::LoadingKey, ConnectEvent::KeyUnavailable) => {
                self.shut();
                ConnectStep::Failed(Error::Auth)
            },
            (SessionState::Authenticating, ConnectEvent::AuthAccepted) => {
                self.state = SessionState::Connected;
                ConnectStep::Connected
            },
            (SessionState::Authenticating, ConnectEvent::AuthRejected) => {
                self.shut();
                ConnectStep::Failed(Error::Auth)
            },
            (SessionState::Connected, _) => ConnectStep::Connected,
            (SessionState::Closed, _) => {
                self.shut();
                ConnectStep::Failed(Error::NotConnected)
            },
            _ => {
                self.shut();
                ConnectStep::Failed(Error::Network)
            },
        }
    }

    /// Drops the handle and leaves the session `Closed`.
    fn shut(&mut self)
        ensures
            final(self)@ == without_transport(old(self)@, SessionState::Closed),
            final(self).held() is None,
    {
        self.handle = None;
        self.state = SessionState::Closed;
        self.channel_open = false;
    }

    /// Where the session stands.
    pub fn state(&self) -> (state: SessionState)
        ensures
            state == self@.state,
    {
        self.state
    }

    /// Whether the session is authenticated and usable.
    pub fn is_connected(&self) -> (connected: bool)
        ensures
            connected == (self@.state is Connected),
    {
        self.state == SessionState::Connected
    }

    /// The user that the session authenticates as.
    pub fn user(&self) -> (user: &String)
        ensures
            user@ == self@.user,
    {
        &self.user
    }

    /// The host that the session connects to.
    pub fn host(&self) -> (host: &String)
        ensures
            host@ == self@.host,
    {
        &self.host
    }

    /// The port that the session connects to.
    pub fn port(&self) -> (port: u16)
        ensures
            port == self@.port,
    {
        self.port
    }

    /// The transport handle, for the caller to perform I/O on.
    pub fn handle_mut(&mut self) -> (handle: Option<&mut H>)
        ensures
            final(self)@ == old(self)@,
            handle is Some <==> old(self)@.has_handle,
            match handle {
                Some(held) => old(self).held() == Some(*held) && final(self).held() == Some(
                    *final(held),
                ),
                None => old(self).held() is None && final(self).held() is None,
            },
    {
        self.handle.as_mut()
    }

    /// Asks to open the session's shell channel.
    ///
    /// A connected session allows one channel at a time: the first request
    /// succeeds and marks the channel open. A further request, while the
    /// channel is open, fails with `AlreadyOpen`; on a session that is not
    /// connected the request fails with `NotConnected`. A refused request
    /// changes nothing.
    pub fn channel_open_session(&mut self) -> (allowed: Result<(), Error>)
        ensures
            allowed == open_result(old(self)@),
            allowed is Ok ==> final(self)@ == (SessionModel { channel_open: true, ..old(self)@ }),
            allowed is Err ==> final(self)@ == old(self)@,
            final(self).held() == old(self).held(),
    {
        if self.state != SessionState::Connected {
            Err(Error::NotConnected)
        } else if self.channel_open {
            Err(Error::Channel(ChannelError::AlreadyOpen))
        } else {
            self.channel_open = true;
            Ok(())
        }
    }

    /// Asks to run `command` on the session's shell channel.
    ///
    /// Unless the session is connected and has its channel open, this fails
    /// with `NotConnected` and leaves the channel alone. Otherwise the
    /// answer is the channel's: the line to write, or its refusal.
    pub fn send_command<C>(&self, channel: &mut ShellChannel<C>, command: &str) -> (line: Result<
        Vec<u8>,
        Error,
    >)
        ensures
            final(channel)@ == (if self@.state is Connected && self@.channel_open {
                after_send(old(channel)@)
            } else {
                old(channel)@
            }),
            final(channel).handle() == old(channel).handle(),
            match line {
                Ok(bytes) => session_send_result(self@, old(channel)@, command.spec_bytes())
                    == Ok::<Seq<u8>, Error>(bytes@),
                Err(error) => session_send_result(self@, old(channel)@, command.spec_bytes())
                    == Err::<Seq<u8>, Error>(error),
            },
    {
        if self.state != SessionState::Connected || !self.channel_open {
            return Err(Error::NotConnected);
        }
        match channel.send_command(command) {
            Ok(bytes) => Ok(bytes),
            Err(error) => Err(Error::Channel(error)),
        }
    }

    /// Records that the session's shell channel is gone, because it could
    /// not be opened or has ended, so that a new one can be opened.
    pub fn release_channel(&mut self)
        ensures
            final(self)@ == (SessionModel { channel_open: false, ..old(self)@ }),
            final(self).held() == old(self).held(),
    {
        self.channel_open = false;
    }

    /// Closes the session.
    ///
    /// The session gives up its transport handle and is `Closed`. The
    /// handle is returned for the caller to send the disconnect
    /// notification on and to drop. Closing a session that holds no handle
    /// returns `None`: closing twice is harmless.
    pub fn close(&mut self) -> (handle: Option<H>)
        ensures
            handle == old(self).held(),
            handle is Some <==> old(self)@.has_handle,
            final(self)@ == without_transport(old(self)@, SessionState::Closed),
            final(self).held() is None,
    {
        let handle = self.handle.take();
        self.state = SessionState::Closed;
        self.channel_open = false;
        handle
    }
}

} // verus!
