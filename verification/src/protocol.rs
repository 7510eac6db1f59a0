//! What holds of every run of a shell channel: chunked output is put
//! together again, commands never overlap, and the handshake ends.

use vstd::prelude::*;
use vstd::string::StringSliceAdditionalSpecFns;
use crate::channel::{
    after_send, after_start, cleared, output_before_marker, transition, ChannelModel, ChannelState,
    EventModel, StepModel, Transition, END_MARKER, HANDSHAKE_TRIES,
};
use crate::text::{contains, lossy_text, lemma_first_occurrence_extend};

verus! {

/// One thing that a caller does to a channel.
pub enum Input {
    /// It asks for the handshake probe.
    Start,
    /// It asks to send a command.
    Send(Seq<u8>),
    /// It hands over an inbound event.
    Event(EventModel),
}

/// The channel after `input`.
pub open spec fn apply(channel: ChannelModel, input: Input) -> ChannelModel {
    match input {
        Input::Start => after_start(channel),
        Input::Send(_) => after_send(channel),
        Input::Event(event) => transition(channel, event).next,
    }
}

/// The channel after all of `inputs`, in order.
pub open spec fn run(channel: ChannelModel, inputs: Seq<Input>) -> ChannelModel
    decreases inputs.len(),
{
    if inputs.len() == 0 {
        channel
    } else {
        apply(run(channel, inputs.drop_last()), inputs.last())
    }
}

/// `input` puts a command on the wire: it asks to send one and the channel
/// accepts.
pub open spec fn sends(channel: ChannelModel, input: Input) -> bool {
    input is Send && channel.state is Ready
}

/// `input` completes the command in flight: it is the event on which the
/// channel hands out the command's output.
pub open spec fn completes(channel: ChannelModel, input: Input) -> bool {
    &&& input is Event
    &&& channel.state is Busy
    &&& transition(channel, input->Event_0).step is Done
}

/// Where a busy channel stands after the data chunks `chunks`, handed over
/// one by one until one of them completes the command.
pub open spec fn collect(channel: ChannelModel, chunks: Seq<Seq<u8>>) -> Transition
    decreases chunks.len(),
{
    if chunks.len() == 0 {
        Transition { next: channel, step: StepModel::Wait }
    } else {
        let first = transition(channel, EventModel::Data(chunks.first()));
        if first.step is Wait {
            collect(first.next, chunks.drop_first())
        } else {
            first
        }
    }
}

/// The output of a command does not depend on how its bytes were cut into
/// chunks.
///
/// A busy channel is handed data chunks one by one. As long as the end
/// marker is not in what has arrived, it waits and keeps all of it. Once the
/// marker is there, the command is complete and its output is what stands
/// before the marker in the chunks joined together, whichever chunk
/// brought the marker and wherever the cuts fell.
pub proof fn lemma_chunks_reassembled(channel: ChannelModel, chunks: Seq<Seq<u8>>)
    requires
        channel.state is Busy,
        !contains(channel.buffer, END_MARKER.spec_bytes()),
    ensures
        ({
            let joined = channel.buffer + chunks.flatten();
            let end = collect(channel, chunks);
            if contains(joined, END_MARKER.spec_bytes()) {
                &&& end.step == StepModel::Done(lossy_text(output_before_marker(joined)))
                &&& end.next == cleared(ChannelState::Ready)
            } else {
                &&& end.step is Wait
                &&& end.next == (ChannelModel { buffer: joined, ..channel })
            }
        }),
    decreases chunks.len(),
{
    let marker = END_MARKER.spec_bytes();
    let joined = channel.buffer + chunks.flatten();
    if chunks.len() == 0 {
        assert(joined =~= channel.buffer);
    } else {
        let arrived = channel.buffer + chunks.first();
        let rest = chunks.drop_first();
        assert(joined =~= arrived + rest.flatten());
        let first = transition(channel, EventModel::Data(chunks.first()));
        if contains(arrived, marker) {
            lemma_first_occurrence_extend(arrived, rest.flatten(), marker);
        } else {
            lemma_chunks_reassembled(first.next, rest);
        }
    }
}

/// Commands never overlap.
///
/// Take any run of a channel and two inputs of it that each put a command
/// on the wire. Then between the two lies an event that completed the
/// first command: the second command is never sent before the response to
/// the first has been collected in full.
pub proof fn lemma_commands_serialized(
    channel: ChannelModel,
    inputs: Seq<Input>,
    first: int,
    second: int,
)
    requires
        0 <= first < second < inputs.len(),
        sends(run(channel, inputs.take(first)), inputs[first]),
        sends(run(channel, inputs.take(second)), inputs[second]),
    ensures
        exists|between: int|
            first < between < second && completes(
                run(channel, inputs.take(between)),
                #[trigger] inputs[between],
            ),
{
    lemma_busy_until_completed(channel, inputs, first, second);
}

/// After a command was sent at `first`, and up to `upto`, either an event
/// has completed it or the channel is still busy, or has ended.
proof fn lemma_busy_until_completed(
    channel: ChannelModel,
    inputs: Seq<Input>,
    first: int,
    upto: int,
)
    requires
        0 <= first < upto <= inputs.len(),
        sends(run(channel, inputs.take(first)), inputs[first]),
    ensures
        (exists|between: int|
            first < between < upto && completes(
                run(channel, inputs.take(between)),
                #[trigger] inputs[between],
            )) || run(channel, inputs.take(upto)).state is Busy || run(
            channel,
            inputs.take(upto),
        ).state is Closed,
    decreases upto - first,
{
    let last = upto - 1;
    assert(inputs.take(upto).drop_last() =~= inputs.take(last));
    assert(inputs.take(upto).last() == inputs[last]);
    if last > first {
        lemma_busy_until_completed(channel, inputs, first, last);
        let before = run(channel, inputs.take(last));
        if before.state is Busy && completes(before, inputs[last]) {
            assert(first < last < upto);
        }
    }
}

/// A closed channel stays closed: whatever the caller does next, it accepts
/// no command and a new channel must be opened.
pub proof fn lemma_closed_stays_closed(channel: ChannelModel, inputs: Seq<Input>)
    requires
        channel.state is Closed,
    ensures
        run(channel, inputs) == channel,
    decreases inputs.len(),
{
    if inputs.len() > 0 {
        lemma_closed_stays_closed(channel, inputs.drop_last());
    }
}

/// Every input of `inputs` is an inbound event.
pub open spec fn all_events(inputs: Seq<Input>) -> bool {
    forall|i: int| 0 <= i < inputs.len() ==> #[trigger] inputs[i] is Event
}

/// The handshake ends.
///
/// A channel that awaits the sentinel and has looked at `attempts` events
/// leaves the handshake at the latest with the event that brings the count
/// to `HANDSHAKE_TRIES - 1`, whatever the events are: no caller waits on a
/// handshake without end.
pub proof fn lemma_handshake_ends(channel: ChannelModel, events: Seq<Input>)
    requires
        channel.state is AwaitingSentinel,
        all_events(events),
        events.len() > 0,
        channel.attempts + events.len() >= HANDSHAKE_TRIES - 1,
    ensures
        run(channel, events).state is Ready || run(channel, events).state is Closed,
{
    lemma_handshake_progress(channel, events);
}

/// While the handshake lasts, each event is counted, and the count stays
/// below `HANDSHAKE_TRIES - 1`.
proof fn lemma_handshake_progress(channel: ChannelModel, events: Seq<Input>)
    requires
        channel.state is AwaitingSentinel,
        all_events(events),
    ensures
        ({
            let end = run(channel, events);
            ||| end.state is Ready
            ||| end.state is Closed
            ||| {
                &&& end.state is AwaitingSentinel
                &&& end.attempts == channel.attempts + events.len()
                &&& (events.len() > 0 ==> end.attempts + 1 < HANDSHAKE_TRIES)
            }
        }),
    decreases events.len(),
{
    if events.len() > 0 {
        assert(all_events(events.drop_last())) by {
            let earlier = events.drop_last();
            assert forall|i: int| 0 <= i < earlier.len() implies #[trigger] earlier[i] is Event by {
                assert(events[i] is Event);
            }
        }
        lemma_handshake_progress(channel, events.drop_last());
        assert(events.last() is Event);
    }
}

} // verus!
