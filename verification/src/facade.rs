//! The operations offered to the outside: connect, run a command, fetch the
//! system or disk snapshot, and disconnect.
//!
//! They work on two slots, one for the session and one for its shell
//! channel. Both start empty, are filled together by `connect_ssh` and are
//! emptied together by `disconnect_ssh`. The caller guards the slots against
//! concurrent use and holds its guard on the channel slot from the moment it
//! asks for a command line until `handle_event` has handed out the output.

use vstd::prelude::*;
use vstd::string::StringSliceAdditionalSpecFns;
use vstd::utf8::encode_utf8;
use crate::channel::{
    after_send, send_result, transition, ChannelEvent, ChannelModel, ChannelState, EventModel,
    ShellChannel, Step, StepModel,
};
use crate::error::{ChannelError, Error};
use crate::probe::{disk_usage_command, system_info_command, system_probe, DISK_PROBE};
use crate::session::{Session, SessionModel};
use crate::snapshot::ProcessSort;

verus! {

/// What `connect_ssh` answers on success.
pub const CONNECTED: &'static str = "Connected";

/// What the caller answers once `disconnect_ssh` is done.
pub const DISCONNECTED: &'static str = "Disconnected";

/// The channel in a slot as a mathematical value.
pub open spec fn channel_in<C>(slot: Option<ShellChannel<C>>) -> Option<ChannelModel> {
    match slot {
        Some(channel) => Some(channel@),
        None => None,
    }
}

/// The handle of the channel in a slot.
pub open spec fn handle_in<C>(slot: Option<ShellChannel<C>>) -> Option<C> {
    match slot {
        Some(channel) => Some(channel.handle()),
        None => None,
    }
}

/// The session in a slot as a mathematical value.
pub open spec fn session_in<H>(slot: Option<Session<H>>) -> Option<SessionModel> {
    match slot {
        Some(session) => Some(session@),
        None => None,
    }
}

/// With which error, if any, `connect_ssh` refuses a session and a channel:
/// the session must be connected and the channel ready.
pub open spec fn connect_refusal(session: SessionModel, channel: ChannelModel) -> Option<Error> {
    if !(session.state is Connected) {
        Some(Error::NotConnected)
    } else if channel.state is Closed {
        Some(Error::Channel(ChannelError::Closed))
    } else if !(channel.state is Ready) {
        Some(Error::Channel(ChannelError::NotReady))
    } else {
        None
    }
}

/// What a request to send `command` through the channel slot answers: the
/// line to write, `NotConnected` for an empty slot, or the channel's own
/// refusal.
pub open spec fn request_result(slot: Option<ChannelModel>, command: Seq<u8>) -> Result<
    Seq<u8>,
    Error,
> {
    match slot {
        None => Err(Error::NotConnected),
        Some(channel) => match send_result(channel, command) {
            Ok(line) => Ok(line),
            Err(error) => Err(Error::Channel(error)),
        },
    }
}

/// The channel slot after a request to send a command.
pub open spec fn slot_after_request(slot: Option<ChannelModel>) -> Option<ChannelModel> {
    match slot {
        None => None,
        Some(channel) => Some(after_send(channel)),
    }
}

/// What an inbound event means for the command in flight: `Ok(None)` to go
/// on waiting, the output once the command is complete, `NotConnected` for
/// an empty slot and `Closed` when the channel has ended.
pub open spec fn progress(slot: Option<ChannelModel>, event: EventModel) -> Result<
    Option<Seq<char>>,
    Error,
> {
    match slot {
        None => Err(Error::NotConnected),
        Some(channel) => match transition(channel, event).step {
            StepModel::Done(output) => Ok(Some(output)),
            StepModel::Closed => Err(Error::Channel(ChannelError::Closed)),
            _ => Ok(None),
        },
    }
}

/// The channel slot after an inbound event.
pub open spec fn slot_after_event(
    slot: Option<ChannelModel>,
    event: EventModel,
) -> Option<ChannelModel> {
    match slot {
        None => None,
        Some(channel) => Some(transition(channel, event).next),
    }
}

/// The two slots as a mathematical value.
pub struct Slots {
    pub session: Option<SessionModel>,
    pub channel: Option<ChannelModel>,
}

/// The slots before any connection, and after a disconnect: both empty.
pub open spec fn empty_slots() -> Slots {
    Slots { session: None, channel: None }
}

/// The slots after a disconnect.
pub open spec fn after_disconnect(slots: Slots) -> Slots {
    empty_slots()
}

/// Whether a disconnect on these slots hands out a transport handle to
/// notify the remote side on: only a session that holds one does.
pub open spec fn notifies(slots: Slots) -> bool {
    slots.session is Some && slots.session->0.has_handle
}

/// Puts a connected session and its ready channel into the slots.
///
/// Succeeds, with the text `CONNECTED`, when the session is connected and
/// the channel is ready; both slots then hold the new pair, and what they
/// held before is dropped. Otherwise nothing changes and the error is
/// `connect_refusal`'s.
pub fn connect_ssh<H, C>(
    session_slot: &mut Option<Session<H>>,
    channel_slot: &mut Option<ShellChannel<C>>,
    session: Session<H>,
    channel: ShellChannel<C>,
) -> (reply: Result<String, Error>)
    ensures
        match connect_refusal(session@, channel@) {
            None => {
                &&& reply is Ok
                &&& reply->Ok_0@ == CONNECTED@
                &&& *final(session_slot) == Some(session)
                &&& *final(channel_slot) == Some(channel)
            },
            Some(error) => {
                &&& reply == Err::<String, Error>(error)
                &&& *final(session_slot) == *old(session_slot)
                &&& *final(channel_slot) == *old(channel_slot)
            },
        },
{
    if !session.is_connected() {
        return Err(Error::NotConnected);
    }
    match channel.state() {
        ChannelState::Ready => {},
        ChannelState::Closed => {
            return Err(Error::Channel(ChannelError::Closed));
        },
        _ => {
            return Err(Error::Channel(ChannelError::NotReady));
        },
    }
    *session_slot = Some(session);
    *channel_slot = Some(channel);
    Ok(CONNECTED.to_owned())
}

/// Asks to run `command` on the channel in the slot.
///
/// With an empty slot this fails with `NotConnected`. Otherwise the answer
/// is the channel's: the line to write, or the channel's refusal.
pub fn execute_command<C>(channel_slot: &mut Option<ShellChannel<C>>, command: &str) -> (line:
    Result<Vec<u8>, Error>)
    ensures
        channel_in(*final(channel_slot)) == slot_after_request(channel_in(*old(channel_slot))),
        handle_in(*final(channel_slot)) == handle_in(*old(channel_slot)),
        line is Err && line->Err_0 == Error::NotConnected <==> *old(channel_slot) is None,
        match line {
            Ok(bytes) => request_result(channel_in(*old(channel_slot)), command.spec_bytes())
                == Ok::<Seq<u8>, Error>(bytes@),
            Err(error) => request_result(channel_in(*old(channel_slot)), command.spec_bytes())
                == Err::<Seq<u8>, Error>(error),
        },
{
    match channel_slot {
        None => Err(Error::NotConnected),
        Some(channel) => match channel.send_command(command) {
            Ok(bytes) => Ok(bytes),
            Err(error) => Err(Error::Channel(error)),
        },
    }
}

/// Asks for the system snapshot, its processes ordered by `sort_by`.
///
/// This is `execute_command` with the system probe as the command. The
/// output that the command completes with is read by
/// `snapshot::parse_system_info`.
pub fn get_system_info<C>(
    channel_slot: &mut Option<ShellChannel<C>>,
    sort_by: ProcessSort,
) -> (line: Result<Vec<u8>, Error>)
    ensures
        channel_in(*final(channel_slot)) == slot_after_request(channel_in(*old(channel_slot))),
        handle_in(*final(channel_slot)) == handle_in(*old(channel_slot)),
        line is Err && line->Err_0 == Error::NotConnected <==> *old(channel_slot) is None,
        match line {
            Ok(bytes) => request_result(
                channel_in(*old(channel_slot)),
                encode_utf8(system_probe(sort_by)),
            ) == Ok::<Seq<u8>, Error>(bytes@),
            Err(error) => request_result(
                channel_in(*old(channel_slot)),
                encode_utf8(system_probe(sort_by)),
            ) == Err::<Seq<u8>, Error>(error),
        },
{
    let command = system_info_command(sort_by);
    execute_command(channel_slot, command.as_str())
}

/// Asks for the disk snapshot.
///
/// This is `execute_command` with the disk probe as the command. The output
/// that the command completes with is read by
/// `snapshot::parse_storage_info`.
pub fn get_disk_usage<C>(channel_slot: &mut Option<ShellChannel<C>>) -> (line: Result<
    Vec<u8>,
    Error,
>)
    ensures
        channel_in(*final(channel_slot)) == slot_after_request(channel_in(*old(channel_slot))),
        handle_in(*final(channel_slot)) == handle_in(*old(channel_slot)),
        line is Err && line->Err_0 == Error::NotConnected <==> *old(channel_slot) is None,
        match line {
            Ok(bytes) => request_result(channel_in(*old(channel_slot)), DISK_PROBE.spec_bytes())
                == Ok::<Seq<u8>, Error>(bytes@),
            Err(error) => request_result(channel_in(*old(channel_slot)), DISK_PROBE.spec_bytes())
                == Err::<Seq<u8>, Error>(error),
        },
{
    let command = disk_usage_command();
    execute_command(channel_slot, command.as_str())
}

/// Hands an inbound event to the channel in the slot and says how the
/// command in flight stands.
pub fn handle_event<C>(channel_slot: &mut Option<ShellChannel<C>>, event: &ChannelEvent) -> (reply:
    Result<Option<String>, Error>)
    ensures
        channel_in(*final(channel_slot)) == slot_after_event(
            channel_in(*old(channel_slot)),
            event@,
        ),
        handle_in(*final(channel_slot)) == handle_in(*old(channel_slot)),
        match reply {
            Ok(Some(output)) => progress(channel_in(*old(channel_slot)), event@) == Ok::<
                Option<Seq<char>>,
                Error,
            >(Some(output@)),
            Ok(None) => progress(channel_in(*old(channel_slot)), event@) == Ok::<
                Option<Seq<char>>,
                Error,
            >(None),
            Err(error) => progress(channel_in(*old(channel_slot)), event@) == Err::<
                Option<Seq<char>>,
                Error,
            >(error),
        },
{
    match channel_slot {
        None => Err(Error::NotConnected),
        Some(channel) => match channel.handle_event(event) {
            Step::Done(output) => Ok(Some(output)),
            Step::Closed => Err(Error::Channel(ChannelError::Closed)),
            _ => Ok(None),
        },
    }
}

/// Empties both slots.
///
/// The session, if there was one, is closed; its transport handle, if it
/// held one, is returned for the caller to send the disconnect notification
/// on. With an empty session slot there is nothing to do and nothing is
/// returned: disconnecting without a session, or twice, is harmless.
pub fn disconnect_ssh<H, C>(
    session_slot: &mut Option<Session<H>>,
    channel_slot: &mut Option<ShellChannel<C>>,
) -> (handle: Option<H>)
    ensures
        *final(session_slot) is None,
        *final(channel_slot) is None,
        (Slots {
            session: session_in(*final(session_slot)),
            channel: channel_in(*final(channel_slot)),
        }) == after_disconnect(
            Slots {
                session: session_in(*old(session_slot)),
                channel: channel_in(*old(channel_slot)),
            },
        ),
        handle is Some <==> notifies(
            Slots {
                session: session_in(*old(session_slot)),
                channel: channel_in(*old(channel_slot)),
            },
        ),
        match *old(session_slot) {
            Some(session) => handle == session.held(),
            None => handle is None,
        },
{
    *channel_slot = None;
    match session_slot.take() {
        Some(mut session) => session.close(),
        None => None,
    }
}

/// Disconnecting twice is the same as disconnecting once.
///
/// Whatever the slots hold, after one disconnect a second one finds no
/// session, has no one to notify and leaves the slots as the first left
/// them: empty.
pub proof fn lemma_disconnect_twice(slots: Slots)
    ensures
        after_disconnect(slots).session is None,
        after_disconnect(slots).channel is None,
        !notifies(after_disconnect(slots)),
        after_disconnect(after_disconnect(slots)) == after_disconnect(slots),
{
}

/// Without a connection every request is refused.
///
/// On an empty channel slot, as before the first connection and after every
/// disconnect, a request answers `NotConnected`, whatever the command, and
/// the slot stays empty: nothing is written and nothing is waited for.
pub proof fn lemma_refused_without_connection(slots: Slots, command: Seq<u8>)
    ensures
        request_result(empty_slots().channel, command) == Err::<Seq<u8>, Error>(
            Error::NotConnected,
        ),
        request_result(after_disconnect(slots).channel, command) == Err::<Seq<u8>, Error>(
            Error::NotConnected,
        ),
        slot_after_request(empty_slots().channel) is None,
{
}

} // verus!
