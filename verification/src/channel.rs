//! The interactive shell channel: a state machine that turns a raw shell
//! byte stream into a request/response exchange.
//!
//! The machine performs no I/O. The caller writes the bytes that
//! `start_handshake` and `send_command` return, hands every inbound channel
//! event to `handle_event`, and goes on waiting while the answer is
//! [`Step::Wait`].
//!
//! A channel starts `Opening`. `start_handshake` gives the probe line to
//! write and moves it to `AwaitingSentinel`; the handshake ends in `Ready`
//! when the sentinel has been seen in what arrived, or when its tries are
//! used up. `send_command` moves a `Ready` channel to `Busy` until the
//! command's end marker, or an exit status, has been seen. An end of file or
//! a close seen while `Ready` or `Busy` leaves the channel `Closed` for good.

use vstd::prelude::*;
use vstd::slice::slice_subrange;
use vstd::string::StringSliceAdditionalSpecFns;
use crate::error::ChannelError;
use crate::text::{
    append_bytes, contains, decode, find, first_occurrence, lossy_text, trim_newlines,
    trimmed_len, lemma_first_occurrence_is, NEWLINE,
};

verus! {

/// The line written to a fresh shell to learn when it is ready.
pub const READY_PROBE: &'static str = "echo shell ready\n";

/// The text whose arrival shows that the shell ran the probe.
pub const READY_SENTINEL: &'static str = "shell ready";

/// What is put between a command and its end marker on the command line.
pub const MARKER_ECHO: &'static str = "; echo ";

/// The text whose arrival shows that a command's output is complete.
pub const END_MARKER: &'static str = "__command_done__";

/// The handshake gives up on its `HANDSHAKE_TRIES`-th try: at most
/// `HANDSHAKE_TRIES - 1` inbound events are looked at.
pub const HANDSHAKE_TRIES: u32 = 10;

/// Where a shell channel stands in its life.
#[derive(Clone, Copy, Debug, PartialEq, Eq, Structural)]
pub enum ChannelState {
    /// Opened; the probe has not been written.
    Opening,
    /// The probe has been written; the sentinel has not been seen.
    AwaitingSentinel,
    /// Idle and usable.
    Ready,
    /// A command is in flight.
    Busy,
    /// Ended; it accepts nothing more.
    Closed,
}

/// How the handshake ended.
#[derive(Clone, Copy, Debug, PartialEq, Eq, Structural)]
pub enum Readiness {
    /// The sentinel was seen.
    Confirmed,
    /// The tries were used up before the sentinel was seen; the shell may
    /// not be ready yet.
    Degraded,
}

/// One inbound event of the channel.
#[derive(Clone, Debug, PartialEq, Eq)]
pub enum ChannelEvent {
    /// Bytes that the shell printed.
    Data(Vec<u8>),
    /// The remote process exited with this status.
    ExitStatus(u32),
    /// The remote side will send no more data.
    Eof,
    /// The channel was closed, or the transport behind it is gone.
    Close,
    /// Any other message, such as a window adjustment.
    Other,
}

/// What the caller does after an event.
#[derive(Clone, Debug, PartialEq, Eq)]
pub enum Step {
    /// Wait for the next event.
    Wait,
    /// The handshake is over and the channel is ready.
    Ready(Readiness),
    /// The command in flight is complete, with this output.
    Done(String),
    /// The channel has ended.
    Closed,
    /// The event came when none was expected and changed nothing.
    Ignored,
}

/// An inbound event as a mathematical value.
pub enum EventModel {
    Data(Seq<u8>),
    ExitStatus(u32),
    Eof,
    Close,
    Other,
}

/// A step as a mathematical value.
pub enum StepModel {
    Wait,
    Ready(Readiness),
    Done(Seq<char>),
    Closed,
    Ignored,
}

/// A shell channel as a mathematical value.
pub struct ChannelModel {
    pub state: ChannelState,
    /// The events looked at so far by the handshake.
    pub attempts: nat,
    /// What has arrived for the handshake or the command in flight.
    pub buffer: Seq<u8>,
}

/// A channel after an event, and what the caller does next.
pub struct Transition {
    pub next: ChannelModel,
    pub step: StepModel,
}

/// The state machine of one interactive shell channel, with the handle of
/// type `C` on which the caller performs the channel's I/O.
pub struct ShellChannel<C> {
    channel: C,
    state: ChannelState,
    attempts: u32,
    buffer: Vec<u8>,
}

impl View for ChannelEvent {
    type V = EventModel;

    open spec fn view(&self) -> EventModel {
        match *self {
            ChannelEvent::Data(data) => EventModel::Data(data@),
            ChannelEvent::ExitStatus(status) => EventModel::ExitStatus(status),
            ChannelEvent::Eof => EventModel::Eof,
            ChannelEvent::Close => EventModel::Close,
            ChannelEvent::Other => EventModel::Other,
        }
    }
}

impl View for Step {
    type V = StepModel;

    open spec fn view(&self) -> StepModel {
        match *self {
            Step::Wait => StepModel::Wait,
            Step::Ready(readiness) => StepModel::Ready(readiness),
            Step::Done(output) => StepModel::Done(output@),
            Step::Closed => StepModel::Closed,
            Step::Ignored => StepModel::Ignored,
        }
    }
}

impl<C> View for ShellChannel<C> {
    type V = ChannelModel;

    closed spec fn view(&self) -> ChannelModel {
        ChannelModel { state: self.state, attempts: self.attempts as nat, buffer: self.buffer@ }
    }
}

impl<C> ShellChannel<C> {
    /// The handle that the channel wraps.
    pub closed spec fn handle(&self) -> C {
        self.channel
    }
}

/// The bytes written for `command`: the command, an echo of the end marker
/// after it, and a line feed.
pub open spec fn command_line(command: Seq<u8>) -> Seq<u8> {
    command + MARKER_ECHO.spec_bytes() + END_MARKER.spec_bytes() + seq![NEWLINE]
}

/// The output of a command whose end marker has arrived: what stands before
/// the first end marker in `received`, without trailing line feeds.
pub open spec fn output_before_marker(received: Seq<u8>) -> Seq<u8> {
    trim_newlines(received.take(first_occurrence(received, END_MARKER.spec_bytes())))
}

/// A channel in `state` that has counted no event and kept no data.
pub open spec fn cleared(state: ChannelState) -> ChannelModel {
    ChannelModel { state, attempts: 0, buffer: Seq::empty() }
}

/// A channel that has just been opened.
pub open spec fn opening() -> ChannelModel {
    cleared(ChannelState::Opening)
}

/// The channel after the caller asked for the handshake probe.
pub open spec fn after_start(before: ChannelModel) -> ChannelModel {
    if before.state is Opening {
        cleared(ChannelState::AwaitingSentinel)
    } else {
        before
    }
}

/// What the caller gets when it asks for the handshake probe.
pub open spec fn start_result(before: ChannelModel) -> Result<Seq<u8>, ChannelError> {
    match before.state {
        ChannelState::Opening => Ok(READY_PROBE.spec_bytes()),
        ChannelState::Closed => Err(ChannelError::Closed),
        _ => Err(ChannelError::AlreadyOpen),
    }
}

/// The channel after the caller asked to send a command.
pub open spec fn after_send(before: ChannelModel) -> ChannelModel {
    if before.state is Ready {
        cleared(ChannelState::Busy)
    } else {
        before
    }
}

/// What the caller gets when it asks to send `command`.
pub open spec fn send_result(before: ChannelModel, command: Seq<u8>) -> Result<
    Seq<u8>,
    ChannelError,
> {
    match before.state {
        ChannelState::Ready => Ok(command_line(command)),
        ChannelState::Busy => Err(ChannelError::Busy),
        ChannelState::Closed => Err(ChannelError::Closed),
        _ => Err(ChannelError::NotReady),
    }
}

/// `buffer` with the data of `event` after it.
pub open spec fn received(buffer: Seq<u8>, event: EventModel) -> Seq<u8> {
    match event {
        EventModel::Data(data) => buffer + data,
        _ => buffer,
    }
}

/// The transition of a channel that awaits the sentinel.
///
/// Data is added to what has arrived. If the sentinel is then in it, the
/// channel is ready. If not, and this was the last event the handshake looks
/// at, the channel is ready all the same, degraded. Otherwise the handshake
/// goes on. An event that is not data counts as one look too.
pub open spec fn handshake_transition(before: ChannelModel, event: EventModel) -> Transition {
    let arrived = received(before.buffer, event);
    if event is Data && contains(arrived, READY_SENTINEL.spec_bytes()) {
        Transition {
            next: cleared(ChannelState::Ready),
            step: StepModel::Ready(Readiness::Confirmed),
        }
    } else if before.attempts + 2 >= HANDSHAKE_TRIES {
        Transition {
            next: cleared(ChannelState::Ready),
            step: StepModel::Ready(Readiness::Degraded),
        }
    } else {
        Transition {
            next: ChannelModel {
                state: ChannelState::AwaitingSentinel,
                attempts: before.attempts + 1,
                buffer: arrived,
            },
            step: StepModel::Wait,
        }
    }
}

/// The transition of a channel with a command in flight.
///
/// Data is added to what has arrived; once the end marker is in it, the
/// command is complete with what stands before the marker. An exit status
/// completes the command with all that has arrived. An end of file or a
/// close ends the channel. Anything else is waited out.
pub open spec fn command_transition(before: ChannelModel, event: EventModel) -> Transition {
    match event {
        EventModel::Data(data) => {
            let arrived = before.buffer + data;
            if contains(arrived, END_MARKER.spec_bytes()) {
                Transition {
                    next: cleared(ChannelState::Ready),
                    step: StepModel::Done(lossy_text(output_before_marker(arrived))),
                }
            } else {
                Transition {
                    next: ChannelModel { buffer: arrived, ..before },
                    step: StepModel::Wait,
                }
            }
        },
        EventModel::ExitStatus(_) => Transition {
            next: cleared(ChannelState::Ready),
            step: StepModel::Done(lossy_text(trim_newlines(before.buffer))),
        },
        EventModel::Eof | EventModel::Close => Transition {
            next: cleared(ChannelState::Closed),
            step: StepModel::Closed,
        },
        EventModel::Other => Transition { next: before, step: StepModel::Wait },
    }
}

/// The transition of a channel on one inbound event.
pub open spec fn transition(before: ChannelModel, event: EventModel) -> Transition {
    match before.state {
        ChannelState::Opening => Transition { next: before, step: StepModel::Ignored },
        ChannelState::AwaitingSentinel => handshake_transition(before, event),
        ChannelState::Ready => {
            if event is Eof || event is Close {
                Transition { next: cleared(ChannelState::Closed), step: StepModel::Closed }
            } else {
                Transition { next: before, step: StepModel::Ignored }
            }
        },
        ChannelState::Busy => command_transition(before, event),
        ChannelState::Closed => Transition { next: before, step: StepModel::Closed },
    }
}

impl<C> ShellChannel<C> {
    /// Wraps a channel that has just been opened: the handshake has not
    /// started.
    pub fn new(channel: C) -> (shell: ShellChannel<C>)
        ensures
            shell@ == opening(),
            shell.handle() == channel,
    {
        ShellChannel { channel, state: ChannelState::Opening, attempts: 0, buffer: Vec::new() }
    }

    /// The wrapped handle, for the caller to perform I/O on.
    pub fn channel_mut(&mut self) -> (channel: &mut C)
        ensures
            *channel == old(self).handle(),
            final(self)@ == old(self)@,
            final(self).handle() == *final(channel),
    {
        &mut self.channel
    }

    /// Where the channel stands.
    pub fn state(&self) -> (state: ChannelState)
        ensures
            state == self@.state,
    {
        self.state
    }

    /// Whether a command can be sent now.
    pub fn is_ready(&self) -> (ready: bool)
        ensures
            ready == (self@.state is Ready),
    {
        self.state == ChannelState::Ready
    }

    /// Starts the readiness handshake.
    ///
    /// On a channel that is `Opening` this returns the probe line to write
    /// and the channel then awaits the sentinel. On any other channel it
    /// changes nothing and fails: with `Closed` if the channel has ended,
    /// with `AlreadyOpen` otherwise.
    pub fn start_handshake(&mut self) -> (probe: Result<Vec<u8>, ChannelError>)
        ensures
            final(self)@ == after_start(old(self)@),
            final(self).handle() == old(self).handle(),
            probe is Ok <==> old(self)@.state is Opening,
            match probe {
                Ok(line) => start_result(old(self)@) == Ok::<Seq<u8>, ChannelError>(line@),
                Err(error) => start_result(old(self)@) == Err::<Seq<u8>, ChannelError>(error),
            },
    {
        match self.state {
            ChannelState::Opening => {
                let mut line: Vec<u8> = Vec::new();
                append_bytes(&mut line, READY_PROBE.as_bytes());
                assert(line@ =~= READY_PROBE.spec_bytes());
                self.state = ChannelState::AwaitingSentinel;
                self.attempts = 0;
                self.buffer.clear();
                Ok(line)
            },
            ChannelState::Closed => Err(ChannelError::Closed),
            _ => Err(ChannelError::AlreadyOpen),
        }
    }

    /// Starts a command.
    ///
    /// On a `Ready` channel this returns the line to write, `command`
    /// followed by an echo of the end marker, and the channel is `Busy`
    /// until the command completes. On any other channel it changes nothing
    /// and fails: with `Busy` while a command is in flight, with `Closed` if
    /// the channel has ended, with `NotReady` before the handshake is over.
    pub fn send_command(&mut self, command: &str) -> (line: Result<Vec<u8>, ChannelError>)
        ensures
            final(self)@ == after_send(old(self)@),
            final(self).handle() == old(self).handle(),
            line is Ok <==> old(self)@.state is Ready,
            match line {
                Ok(bytes) => send_result(old(self)@, command.spec_bytes()) == Ok::<
                    Seq<u8>,
                    ChannelError,
                >(bytes@),
                Err(error) => send_result(old(self)@, command.spec_bytes()) == Err::<
                    Seq<u8>,
                    ChannelError,
                >(error),
            },
    {
        match self.state {
            ChannelState::Ready => {
                let mut bytes: Vec<u8> = Vec::new();
                append_bytes(&mut bytes, command.as_bytes());
                append_bytes(&mut bytes, MARKER_ECHO.as_bytes());
                append_bytes(&mut bytes, END_MARKER.as_bytes());
                bytes.push(NEWLINE);
                assert(bytes@ =~= command_line(command.spec_bytes()));
                self.state = ChannelState::Busy;
                self.attempts = 0;
                self.buffer.clear();
                Ok(bytes)
            },
            ChannelState::Busy => Err(ChannelError::Busy),
            ChannelState::Closed => Err(ChannelError::Closed),
            _ => Err(ChannelError::NotReady),
        }
    }

    /// Takes one inbound event and says what to do next.
    pub fn handle_event(&mut self, event: &ChannelEvent) -> (step: Step)
        ensures
            final(self)@ == transition(old(self)@, event@).next,
            final(self).handle() == old(self).handle(),
            step@ == transition(old(self)@, event@).step,
    {
        match self.state {
            ChannelState::Opening => Step::Ignored,
            ChannelState::AwaitingSentinel => self.handle_handshake_event(event),
            ChannelState::Ready => {
                match event {
                    ChannelEvent::Eof | ChannelEvent::Close => {
                        self.reset(ChannelState::Closed);
                        Step::Closed
                    },
                    _ => Step::Ignored,
                }
            },
            ChannelState::Busy => self.handle_command_event(event),
            ChannelState::Closed => Step::Closed,
        }
    }

    /// Forgets what was counted and kept, and puts the channel in `state`.
    fn reset(&mut self, state: ChannelState)
        ensures
            final(self)@ == cleared(state),
            final(self).handle() == old(self).handle(),
    {
        self.state = state;
        self.attempts = 0;
        self.buffer.clear();
    }

    /// `handle_event` for a channel that awaits the sentinel.
    fn handle_handshake_event(&mut self, event: &ChannelEvent) -> (step: Step)
        requires
            old(self)@.state is AwaitingSentinel,
        ensures
            final(self)@ == handshake_transition(old(self)@, event@).next,
            final(self).handle() == old(self).handle(),
            step@ == handshake_transition(old(self)@, event@).step,
    {
        let mut seen: bool = false;
        match event {
            ChannelEvent::Data(data) => {
                append_bytes(&mut self.buffer, data.as_slice());
                seen = find(self.buffer.as_slice(), READY_SENTINEL.as_bytes()).is_some();
            },
            _ => {},
        }
        if seen {
            self.reset(ChannelState::Ready);
            Step::Ready(Readiness::Confirmed)
        } else if self.attempts >= HANDSHAKE_TRIES - 2 {
            self.reset(ChannelState::Ready);
            Step::Ready(Readiness::Degraded)
        } else {
            self.attempts = self.attempts + 1;
            Step::Wait
        }
    }

    /// `handle_event` for a channel with a command in flight.
    fn handle_command_event(&mut self, event: &ChannelEvent) -> (step: Step)
        requires
            old(self)@.state is Busy,
        ensures
            final(self)@ == command_transition(old(self)@, event@).next,
            final(self).handle() == old(self).handle(),
            step@ == command_transition(old(self)@, event@).step,
    {
        match event {
            ChannelEvent::Data(data) => {
                append_bytes(&mut self.buffer, data.as_slice());
                match find(self.buffer.as_slice(), END_MARKER.as_bytes()) {
                    Some(at) => {
                        proof {
                            lemma_first_occurrence_is(
                                self.buffer@,
                                END_MARKER.spec_bytes(),
                                at as int,
                            );
                        }
                        let before = slice_subrange(self.buffer.as_slice(), 0, at);
                        assert(before@ =~= self.buffer@.take(at as int));
                        let len: usize = trimmed_len(before);
                        let output = decode(slice_subrange(before, 0, len));
                        assert(before@.subrange(0, len as int) =~= before@.take(len as int));
                        self.reset(ChannelState::Ready);
                        Step::Done(output)
                    },
                    None => Step::Wait,
                }
            },
            ChannelEvent::ExitStatus(_) => {
                let all = self.buffer.as_slice();
                let len: usize = trimmed_len(all);
                let output = decode(slice_subrange(all, 0, len));
                assert(all@.subrange(0, len as int) =~= all@.take(len as int));
                self.reset(ChannelState::Ready);
                Step::Done(output)
            },
            ChannelEvent::Eof | ChannelEvent::Close => {
                self.reset(ChannelState::Closed);
                Step::Closed
            },
            ChannelEvent::Other => Step::Wait,
        }
    }
}

} // verus!
