use tsumari::channel::{ChannelEvent, ChannelState, ShellChannel};
use tsumari::error::{ChannelError, Error};
use tsumari::facade::{
    connect_ssh, disconnect_ssh, execute_command, get_disk_usage, get_system_info, handle_event,
    CONNECTED, DISCONNECTED,
};
use tsumari::probe::{disk_usage_command, system_info_command};
use tsumari::session::{ConnectEvent, Session};
use tsumari::snapshot::{parse_storage_info, parse_system_info, ProcessSort};

fn data(text: &str) -> ChannelEvent {
    ChannelEvent::Data(text.as_bytes().to_vec())
}

fn connected_session(handle: u32) -> Session<u32> {
    let mut session = Session::connect("root".to_string(), "example.org".to_string(), 22);
    session.handle_connect_event(ConnectEvent::TransportOpened(handle));
    session.handle_connect_event(ConnectEvent::KeyLoaded);
    session.handle_connect_event(ConnectEvent::AuthAccepted);
    session
}

fn ready_channel(handle: u8) -> ShellChannel<u8> {
    let mut channel = ShellChannel::new(handle);
    channel.start_handshake().unwrap();
    channel.handle_event(&data("shell ready\n"));
    channel
}

fn connected_slots() -> (Option<Session<u32>>, Option<ShellChannel<u8>>) {
    let mut session_slot = None;
    let mut channel_slot = None;
    let reply = connect_ssh(
        &mut session_slot,
        &mut channel_slot,
        connected_session(1),
        ready_channel(2),
    );
    assert_eq!(reply, Ok("Connected".to_string()));
    (session_slot, channel_slot)
}

#[test]
fn success_texts() {
    assert_eq!(CONNECTED, "Connected");
    assert_eq!(DISCONNECTED, "Disconnected");
}

#[test]
fn error_texts() {
    assert_eq!(Error::NotConnected.message(), "SSH session not connected");
    assert_eq!(Error::Network.message(), "SSH connection failed");
    assert_eq!(Error::Auth.message(), "SSH authentication failed");
    assert_eq!(
        Error::Channel(ChannelError::OpenFailed).message(),
        "SSH channel could not be opened"
    );
    assert_eq!(Error::Channel(ChannelError::AlreadyOpen).message(), "SSH channel already open");
    assert_eq!(Error::Channel(ChannelError::NotReady).message(), "SSH channel not ready");
    assert_eq!(Error::Channel(ChannelError::Busy).message(), "SSH channel busy");
    assert_eq!(Error::Channel(ChannelError::Closed).message(), "SSH channel closed");
}

#[test]
fn command_without_connection_is_refused() {
    let mut slot: Option<ShellChannel<u8>> = None;
    assert_eq!(execute_command(&mut slot, "ls"), Err(Error::NotConnected));
    assert!(slot.is_none());
}

#[test]
fn system_snapshot_without_connection_is_refused() {
    let mut slot: Option<ShellChannel<u8>> = None;
    assert_eq!(get_system_info(&mut slot, ProcessSort::Cpu), Err(Error::NotConnected));
    assert_eq!(get_system_info(&mut slot, ProcessSort::Ram), Err(Error::NotConnected));
    assert!(slot.is_none());
}

#[test]
fn disk_snapshot_without_connection_is_refused() {
    let mut slot: Option<ShellChannel<u8>> = None;
    assert_eq!(get_disk_usage(&mut slot), Err(Error::NotConnected));
    assert!(slot.is_none());
}

#[test]
fn event_without_connection_is_refused() {
    let mut slot: Option<ShellChannel<u8>> = None;
    assert_eq!(handle_event(&mut slot, &data("x")), Err(Error::NotConnected));
    assert!(slot.is_none());
}

#[test]
fn commands_after_disconnect_are_refused() {
    let (mut session_slot, mut channel_slot) = connected_slots();
    disconnect_ssh(&mut session_slot, &mut channel_slot);
    assert_eq!(execute_command(&mut channel_slot, "ls"), Err(Error::NotConnected));
    assert_eq!(get_disk_usage(&mut channel_slot), Err(Error::NotConnected));
    assert_eq!(
        get_system_info(&mut channel_slot, ProcessSort::Cpu),
        Err(Error::NotConnected)
    );
}

#[test]
fn connect_fills_both_slots() {
    let (mut session_slot, mut channel_slot) = connected_slots();
    assert!(session_slot.as_ref().unwrap().is_connected());
    assert!(channel_slot.as_ref().unwrap().is_ready());
    assert_eq!(session_slot.as_mut().unwrap().handle_mut(), Some(&mut 1));
    assert_eq!(*channel_slot.as_mut().unwrap().channel_mut(), 2);
}

#[test]
fn connect_replaces_what_the_slots_held() {
    let (mut session_slot, mut channel_slot) = connected_slots();
    let reply = connect_ssh(
        &mut session_slot,
        &mut channel_slot,
        connected_session(10),
        ready_channel(20),
    );
    assert_eq!(reply, Ok("Connected".to_string()));
    assert_eq!(session_slot.as_mut().unwrap().handle_mut(), Some(&mut 10));
    assert_eq!(*channel_slot.as_mut().unwrap().channel_mut(), 20);
}

#[test]
fn connect_refuses_a_session_that_is_not_connected() {
    let mut session_slot: Option<Session<u32>> = None;
    let mut channel_slot: Option<ShellChannel<u8>> = None;
    let session = Session::connect("root".to_string(), "h".to_string(), 22);
    assert_eq!(
        connect_ssh(&mut session_slot, &mut channel_slot, session, ready_channel(2)),
        Err(Error::NotConnected)
    );
    assert!(session_slot.is_none());
    assert!(channel_slot.is_none());
}

#[test]
fn connect_refuses_a_channel_that_is_not_ready() {
    let (mut session_slot, mut channel_slot) = connected_slots();
    assert_eq!(
        connect_ssh(
            &mut session_slot,
            &mut channel_slot,
            connected_session(10),
            ShellChannel::new(20)
        ),
        Err(Error::Channel(ChannelError::NotReady))
    );
    let mut closed = ready_channel(21);
    closed.handle_event(&ChannelEvent::Close);
    assert_eq!(
        connect_ssh(&mut session_slot, &mut channel_slot, connected_session(10), closed),
        Err(Error::Channel(ChannelError::Closed))
    );
    assert_eq!(session_slot.as_mut().unwrap().handle_mut(), Some(&mut 1));
    assert_eq!(*channel_slot.as_mut().unwrap().channel_mut(), 2);
}

#[test]
fn command_runs_to_its_output() {
    let (_, mut channel_slot) = connected_slots();
    assert_eq!(
        execute_command(&mut channel_slot, "uname"),
        Ok(b"uname; echo __command_done__\n".to_vec())
    );
    assert_eq!(handle_event(&mut channel_slot, &data("Lin")), Ok(None));
    assert_eq!(handle_event(&mut channel_slot, &ChannelEvent::Other), Ok(None));
    assert_eq!(
        handle_event(&mut channel_slot, &data("ux\n__command_done__\n")),
        Ok(Some("Linux".to_string()))
    );
    assert!(channel_slot.as_ref().unwrap().is_ready());
}

#[test]
fn second_request_is_refused_while_the_first_is_in_flight() {
    let (_, mut channel_slot) = connected_slots();
    execute_command(&mut channel_slot, "a").unwrap();
    assert_eq!(
        execute_command(&mut channel_slot, "b"),
        Err(Error::Channel(ChannelError::Busy))
    );
    assert_eq!(get_disk_usage(&mut channel_slot), Err(Error::Channel(ChannelError::Busy)));
    assert_eq!(
        handle_event(&mut channel_slot, &data("A\n__command_done__\n")),
        Ok(Some("A".to_string()))
    );
    assert!(execute_command(&mut channel_slot, "b").is_ok());
}

#[test]
fn closed_channel_is_reported() {
    let (_, mut channel_slot) = connected_slots();
    execute_command(&mut channel_slot, "a").unwrap();
    assert_eq!(
        handle_event(&mut channel_slot, &ChannelEvent::Close),
        Err(Error::Channel(ChannelError::Closed))
    );
    assert_eq!(channel_slot.as_ref().unwrap().state(), ChannelState::Closed);
    assert_eq!(
        execute_command(&mut channel_slot, "b"),
        Err(Error::Channel(ChannelError::Closed))
    );
}

#[test]
fn system_snapshot_round() {
    let (_, mut channel_slot) = connected_slots();
    let mut expected = system_info_command(ProcessSort::Ram).into_bytes();
    expected.extend_from_slice(b"; echo __command_done__\n");
    assert_eq!(get_system_info(&mut channel_slot, ProcessSort::Ram), Ok(expected));
    assert_eq!(handle_event(&mut channel_slot, &data("CPU 4.5\nMEM 2048 ")), Ok(None));
    let output = handle_event(
        &mut channel_slot,
        &data("512 1536\nPROC init 0.0 0.1\n__command_done__\n"),
    )
    .unwrap()
    .unwrap();
    let info = parse_system_info(output.as_bytes());
    assert_eq!(info.cpu_usage.numerator, 45);
    assert_eq!(info.cpu_usage.denominator, 10);
    assert_eq!(info.memory.total.numerator as f64 / info.memory.total.denominator as f64, 2.0);
    assert_eq!(info.memory.used.numerator as f64 / info.memory.used.denominator as f64, 0.5);
    assert_eq!(
        info.memory.percentage.numerator as f64 / info.memory.percentage.denominator as f64,
        25.0
    );
    assert_eq!(info.processes.len(), 1);
    assert_eq!(info.processes[0].name, "init");
}

#[test]
fn disk_snapshot_round() {
    let (_, mut channel_slot) = connected_slots();
    let mut expected = disk_usage_command().into_bytes();
    expected.extend_from_slice(b"; echo __command_done__\n");
    assert_eq!(get_disk_usage(&mut channel_slot), Ok(expected));
    let output = handle_event(&mut channel_slot, &data("12,50,24__command_done__\n"))
        .unwrap()
        .unwrap();
    assert_eq!(output, "12,50,24");
    let info = parse_storage_info(output.as_bytes());
    assert_eq!((info.used.numerator, info.used.denominator), (12, 1));
    assert_eq!((info.total.numerator, info.total.denominator), (50, 1));
    assert_eq!((info.percentage.numerator, info.percentage.denominator), (24, 1));
}

#[test]
fn probe_commands_are_exact() {
    let expected_cpu = format!(
        r#"top -bn1 -w 150 -o {} | awk '
                /Cpu/ {{
                    cpu=$2+$4
                    print "CPU " cpu
                }}
                /MiB Mem :/ {{
                    total=$4
                    free=$6
                    used=$8
                    print "MEM " total " " used " " free
                }}
                NR>7 && NR<18 {{
                    print "PROC " $12 " " $9 " " $10
                }}'"#,
        "%CPU"
    );
    assert_eq!(system_info_command(ProcessSort::Cpu), expected_cpu);
    assert_eq!(
        system_info_command(ProcessSort::Ram),
        expected_cpu.replace("-o %CPU", "-o %MEM")
    );
    assert_eq!(
        disk_usage_command(),
        "df -h / --output=size,used,pcent | awk 'NR==2 { printf \"%s,%s,%s\", $2, $1, $3 }' | tr -d 'G%'"
    );
}

#[test]
fn disconnect_empties_both_slots_and_hands_out_the_handle() {
    let (mut session_slot, mut channel_slot) = connected_slots();
    assert_eq!(disconnect_ssh(&mut session_slot, &mut channel_slot), Some(1));
    assert!(session_slot.is_none());
    assert!(channel_slot.is_none());
}

#[test]
fn disconnect_twice_is_harmless() {
    let (mut session_slot, mut channel_slot) = connected_slots();
    assert_eq!(disconnect_ssh(&mut session_slot, &mut channel_slot), Some(1));
    assert_eq!(disconnect_ssh(&mut session_slot, &mut channel_slot), None);
    assert!(session_slot.is_none());
    assert!(channel_slot.is_none());
}

#[test]
fn disconnect_without_a_session_is_harmless() {
    let mut session_slot: Option<Session<u32>> = None;
    let mut channel_slot: Option<ShellChannel<u8>> = None;
    assert_eq!(disconnect_ssh(&mut session_slot, &mut channel_slot), None);
    assert!(session_slot.is_none());
    assert!(channel_slot.is_none());
}

#[test]
fn disconnect_of_a_closed_session_has_no_one_to_notify() {
    let mut closed = connected_session(3);
    closed.close();
    let mut session_slot = Some(closed);
    let mut channel_slot: Option<ShellChannel<u8>> = None;
    assert_eq!(disconnect_ssh(&mut session_slot, &mut channel_slot), None);
    assert!(session_slot.is_none());
}
