use tsumari::channel::{ChannelEvent, ChannelState, ShellChannel};
use tsumari::error::{ChannelError, Error};
use tsumari::session::{Client, ConnectEvent, ConnectStep, Session, SessionState};

fn connected() -> Session<u32> {
    let mut session = Session::connect("root".to_string(), "example.org".to_string(), 22);
    assert_eq!(
        session.handle_connect_event(ConnectEvent::TransportOpened(41)),
        ConnectStep::LoadKey
    );
    assert_eq!(session.handle_connect_event(ConnectEvent::KeyLoaded), ConnectStep::Authenticate);
    assert_eq!(session.handle_connect_event(ConnectEvent::AuthAccepted), ConnectStep::Connected);
    session
}

#[test]
fn client_accepts_every_server_key() {
    let client = Client::new();
    assert!(client.check_server_key(b""));
    assert!(client.check_server_key(b"ssh-ed25519 AAAA"));
}

#[test]
fn new_session_is_connecting() {
    let mut session: Session<u32> =
        Session::connect("daniel".to_string(), "10.0.0.2".to_string(), 2222);
    assert_eq!(session.state(), SessionState::Connecting);
    assert!(!session.is_connected());
    assert_eq!(session.user(), "daniel");
    assert_eq!(session.host(), "10.0.0.2");
    assert_eq!(session.port(), 2222);
    assert!(session.handle_mut().is_none());
}

#[test]
fn connecting_step_by_step() {
    let mut session: Session<u32> =
        Session::connect("root".to_string(), "example.org".to_string(), 22);
    assert_eq!(
        session.handle_connect_event(ConnectEvent::TransportOpened(5)),
        ConnectStep::LoadKey
    );
    assert_eq!(session.state(), SessionState::LoadingKey);
    assert_eq!(session.handle_mut(), Some(&mut 5));
    assert_eq!(session.handle_connect_event(ConnectEvent::KeyLoaded), ConnectStep::Authenticate);
    assert_eq!(session.state(), SessionState::Authenticating);
    assert_eq!(session.handle_connect_event(ConnectEvent::AuthAccepted), ConnectStep::Connected);
    assert_eq!(session.state(), SessionState::Connected);
    assert!(session.is_connected());
    assert_eq!(session.handle_mut(), Some(&mut 5));
}

#[test]
fn unreachable_endpoint_is_a_network_error() {
    let mut session: Session<u32> = Session::connect("root".to_string(), "nowhere".to_string(), 22);
    assert_eq!(
        session.handle_connect_event(ConnectEvent::TransportFailed),
        ConnectStep::Failed(Error::Network)
    );
    assert_eq!(session.state(), SessionState::Closed);
    assert!(session.handle_mut().is_none());
}

#[test]
fn missing_key_is_an_auth_error_and_releases_the_transport() {
    let mut session: Session<u32> = Session::connect("root".to_string(), "h".to_string(), 22);
    session.handle_connect_event(ConnectEvent::TransportOpened(1));
    assert_eq!(
        session.handle_connect_event(ConnectEvent::KeyUnavailable),
        ConnectStep::Failed(Error::Auth)
    );
    assert_eq!(session.state(), SessionState::Closed);
    assert!(session.handle_mut().is_none());
}

#[test]
fn rejected_key_is_an_auth_error() {
    let mut session: Session<u32> = Session::connect("root".to_string(), "h".to_string(), 22);
    session.handle_connect_event(ConnectEvent::TransportOpened(1));
    session.handle_connect_event(ConnectEvent::KeyLoaded);
    assert_eq!(
        session.handle_connect_event(ConnectEvent::AuthRejected),
        ConnectStep::Failed(Error::Auth)
    );
    assert_eq!(session.state(), SessionState::Closed);
    assert!(session.handle_mut().is_none());
}

#[test]
fn transport_failure_during_authentication_is_a_network_error() {
    let mut session: Session<u32> = Session::connect("root".to_string(), "h".to_string(), 22);
    session.handle_connect_event(ConnectEvent::TransportOpened(1));
    session.handle_connect_event(ConnectEvent::KeyLoaded);
    assert_eq!(
        session.handle_connect_event(ConnectEvent::AuthFailed),
        ConnectStep::Failed(Error::Network)
    );
    assert_eq!(session.state(), SessionState::Closed);
}

#[test]
fn outcome_out_of_turn_ends_the_attempt() {
    let mut session: Session<u32> = Session::connect("root".to_string(), "h".to_string(), 22);
    assert_eq!(
        session.handle_connect_event(ConnectEvent::AuthAccepted),
        ConnectStep::Failed(Error::Network)
    );
    assert_eq!(session.state(), SessionState::Closed);
    let mut session: Session<u32> = Session::connect("root".to_string(), "h".to_string(), 22);
    session.handle_connect_event(ConnectEvent::TransportOpened(1));
    assert_eq!(
        session.handle_connect_event(ConnectEvent::TransportOpened(2)),
        ConnectStep::Failed(Error::Network)
    );
    assert!(session.handle_mut().is_none());
}

#[test]
fn connected_session_stays_connected() {
    let mut session = connected();
    assert_eq!(
        session.handle_connect_event(ConnectEvent::AuthRejected),
        ConnectStep::Connected
    );
    assert_eq!(
        session.handle_connect_event(ConnectEvent::TransportOpened(99)),
        ConnectStep::Connected
    );
    assert!(session.is_connected());
    assert_eq!(session.handle_mut(), Some(&mut 41));
}

#[test]
fn closed_session_answers_not_connected() {
    let mut session = connected();
    session.close();
    assert_eq!(
        session.handle_connect_event(ConnectEvent::TransportOpened(3)),
        ConnectStep::Failed(Error::NotConnected)
    );
    assert_eq!(session.state(), SessionState::Closed);
    assert!(session.handle_mut().is_none());
}

#[test]
fn one_channel_at_a_time() {
    let mut session = connected();
    assert_eq!(session.channel_open_session(), Ok(()));
    assert_eq!(
        session.channel_open_session(),
        Err(Error::Channel(ChannelError::AlreadyOpen))
    );
    session.release_channel();
    assert_eq!(session.channel_open_session(), Ok(()));
}

#[test]
fn no_channel_without_a_connection() {
    let mut session: Session<u32> = Session::connect("root".to_string(), "h".to_string(), 22);
    assert_eq!(session.channel_open_session(), Err(Error::NotConnected));
    session.handle_connect_event(ConnectEvent::TransportOpened(1));
    assert_eq!(session.channel_open_session(), Err(Error::NotConnected));
    let mut session = connected();
    session.close();
    assert_eq!(session.channel_open_session(), Err(Error::NotConnected));
}

#[test]
fn close_hands_out_the_handle_once() {
    let mut session = connected();
    session.channel_open_session().unwrap();
    assert_eq!(session.close(), Some(41));
    assert_eq!(session.state(), SessionState::Closed);
    assert_eq!(session.close(), None);
    assert_eq!(session.state(), SessionState::Closed);
}

#[test]
fn close_before_the_transport_is_open() {
    let mut session: Session<u32> = Session::connect("root".to_string(), "h".to_string(), 22);
    assert_eq!(session.close(), None);
    assert_eq!(session.state(), SessionState::Closed);
}

fn ready_shell() -> ShellChannel<u8> {
    let mut shell = ShellChannel::new(0);
    shell.start_handshake().unwrap();
    shell.handle_event(&ChannelEvent::Data(b"shell ready\n".to_vec()));
    shell
}

#[test]
fn session_sends_on_its_open_channel() {
    let mut session = connected();
    session.channel_open_session().unwrap();
    let mut shell = ready_shell();
    assert_eq!(
        session.send_command(&mut shell, "whoami"),
        Ok(b"whoami; echo __command_done__\n".to_vec())
    );
    assert_eq!(shell.state(), ChannelState::Busy);
    assert_eq!(
        session.send_command(&mut shell, "id"),
        Err(Error::Channel(ChannelError::Busy))
    );
}

#[test]
fn session_without_channel_sends_nothing() {
    let session = connected();
    let mut shell = ready_shell();
    assert_eq!(session.send_command(&mut shell, "whoami"), Err(Error::NotConnected));
    assert_eq!(shell.state(), ChannelState::Ready);
    let mut closed = connected();
    closed.channel_open_session().unwrap();
    closed.close();
    assert_eq!(closed.send_command(&mut shell, "whoami"), Err(Error::NotConnected));
    assert_eq!(shell.state(), ChannelState::Ready);
}

#[test]
fn session_passes_on_the_refusal_of_the_channel() {
    let mut session = connected();
    session.channel_open_session().unwrap();
    let mut opening: ShellChannel<u8> = ShellChannel::new(0);
    assert_eq!(
        session.send_command(&mut opening, "whoami"),
        Err(Error::Channel(ChannelError::NotReady))
    );
    let mut shell = ready_shell();
    shell.handle_event(&ChannelEvent::Close);
    assert_eq!(
        session.send_command(&mut shell, "whoami"),
        Err(Error::Channel(ChannelError::Closed))
    );
}
