use vstd::prelude::*;
use crate::errors::{Error, SendFailure};
use crate::ports::Direction;

verus! {

/// How far a relay has come.
#[derive(Debug, Clone, Copy, PartialEq, Eq)]
pub enum RelayStage {
    /// The output port is being resolved and opened; nothing else has begun.
    OpeningOutput,
    /// The output is open and owned by the relay; the input is being opened.
    OpeningInput,
    /// Both ends are open: every arriving message is sent on.
    Forwarding,
    /// Opening failed; the relay never forwarded anything.
    Aborted,
}

/// What happened outside since the relay's last step.
#[derive(Debug, PartialEq, Eq)]
pub enum RelayEvent {
    /// The port that the last step asked for was opened, or could not be.
    Opened(Result<(), Error>),
    /// A message arrived on the input connection.
    Arrived(Vec<u8>),
    /// The send that the last step asked for is over.
    Sent(Result<(), SendFailure>),
}

/// What the relay asks to be done next.
#[derive(Debug, Clone, PartialEq, Eq)]
pub enum RelayAction {
    /// Resolve and open the relay's port of this direction.
    Open(Direction),
    /// Send these bytes on the output connection.
    Send(Vec<u8>),
    /// Nothing to do until the next event.
    Idle,
    /// Give up with this error.
    Abort(Error),
}

/// The first step of every relay: open the output, so that the sink exists
/// before the source delivers.
pub open spec fn relay_start() -> (RelayStage, RelayAction) {
    (RelayStage::OpeningOutput, RelayAction::Open(Direction::Output))
}

/// The relay's transition: next stage and action for a stage and an event.
///
/// While opening, success moves on (output, then input, then forwarding) and
/// the first failure aborts. While forwarding, every arriving message is
/// sent as it is, and how a send ended changes nothing. An event that the
/// stage does not await is passed over.
pub open spec fn relay_step(stage: RelayStage, event: RelayEvent) -> (RelayStage, RelayAction) {
    match (stage, event) {
        (RelayStage::OpeningOutput, RelayEvent::Opened(Ok(_))) => (
            RelayStage::OpeningInput,
            RelayAction::Open(Direction::Input),
        ),
        (RelayStage::OpeningInput, RelayEvent::Opened(Ok(_))) => (
            RelayStage::Forwarding,
            RelayAction::Idle,
        ),
        (RelayStage::OpeningOutput, RelayEvent::Opened(Err(error))) => (
            RelayStage::Aborted,
            RelayAction::Abort(error),
        ),
        (RelayStage::OpeningInput, RelayEvent::Opened(Err(error))) => (
            RelayStage::Aborted,
            RelayAction::Abort(error),
        ),
        (RelayStage::Forwarding, RelayEvent::Arrived(message)) => (
            RelayStage::Forwarding,
            RelayAction::Send(message),
        ),
        _ => (stage, RelayAction::Idle),
    }
}

/// Begins a relay.
pub fn relay_begin() -> (r: (RelayStage, RelayAction))
    ensures
        r == relay_start(),
{
    (RelayStage::OpeningOutput, RelayAction::Open(Direction::Output))
}

/// Takes the relay one step on.
pub fn relay(stage: RelayStage, event: RelayEvent) -> (r: (RelayStage, RelayAction))
    ensures
        r == relay_step(stage, event),
{
    match stage {
        RelayStage::OpeningOutput => match event {
            RelayEvent::Opened(Ok(_)) => (
                RelayStage::OpeningInput,
                RelayAction::Open(Direction::Input),
            ),
            RelayEvent::Opened(Err(error)) => (RelayStage::Aborted, RelayAction::Abort(error)),
            _ => (stage, RelayAction::Idle),
        },
        RelayStage::OpeningInput => match event {
            RelayEvent::Opened(Ok(_)) => (RelayStage::Forwarding, RelayAction::Idle),
            RelayEvent::Opened(Err(error)) => (RelayStage::Aborted, RelayAction::Abort(error)),
            _ => (stage, RelayAction::Idle),
        },
        RelayStage::Forwarding => match event {
            RelayEvent::Arrived(message) => (RelayStage::Forwarding, RelayAction::Send(message)),
            _ => (stage, RelayAction::Idle),
        },
        RelayStage::Aborted => (stage, RelayAction::Idle),
    }
}

/// The stage that a run of events leaves the relay in.
pub open spec fn stage_after(stage: RelayStage, events: Seq<RelayEvent>) -> RelayStage
    decreases events.len(),
{
    if events.len() == 0 {
        stage
    } else {
        stage_after(relay_step(stage, events[0]).0, events.drop_first())
    }
}

/// The byte strings that the relay asks to send over a run of events, in
/// the order in which it asks.
pub open spec fn sent_over(stage: RelayStage, events: Seq<RelayEvent>) -> Seq<Seq<u8>>
    decreases events.len(),
{
    if events.len() == 0 {
        Seq::empty()
    } else {
        let (next, action) = relay_step(stage, events[0]);
        let rest = sent_over(next, events.drop_first());
        match action {
            RelayAction::Send(bytes) => seq![bytes@] + rest,
            _ => rest,
        }
    }
}

/// The run of events in which exactly these messages arrive, in this order.
pub open spec fn arrivals(messages: Seq<Vec<u8>>) -> Seq<RelayEvent> {
    Seq::new(messages.len(), |i: int| RelayEvent::Arrived(messages[i]))
}

/// The messages' bytes, one for one.
pub open spec fn bytes_of(messages: Seq<Vec<u8>>) -> Seq<Seq<u8>> {
    Seq::new(messages.len(), |i: int| messages[i]@)
}

/// A forwarding relay sends on every message that arrives, byte for byte
/// and in the order of arrival. Nothing is filtered: a timing clock or a
/// keep-alive byte is sent on like any other message. The relay is still
/// forwarding afterwards.
pub proof fn relay_forwards_everything(messages: Seq<Vec<u8>>)
    ensures
        sent_over(RelayStage::Forwarding, arrivals(messages)) == bytes_of(messages),
        stage_after(RelayStage::Forwarding, arrivals(messages)) == RelayStage::Forwarding,
    decreases messages.len(),
{
    let events = arrivals(messages);
    if messages.len() == 0 {
        assert(sent_over(RelayStage::Forwarding, events) =~= bytes_of(messages));
    } else {
        let tail = messages.drop_first();
        relay_forwards_everything(tail);
        assert(events.drop_first() =~= arrivals(tail));
        assert(events[0] == RelayEvent::Arrived(messages[0]));
        assert(seq![messages[0]@] + bytes_of(tail) =~= bytes_of(messages));
    }
}

/// A failed send does not end the relay, and a relay that forwards never
/// leaves that stage, whatever happens.
pub proof fn relay_keeps_forwarding(event: RelayEvent)
    ensures
        relay_step(RelayStage::Forwarding, event).0 == RelayStage::Forwarding,
        !(relay_step(RelayStage::Forwarding, event).1 is Abort),
{
}

/// Nothing is sent before both ends are open.
pub proof fn relay_sends_only_when_forwarding(stage: RelayStage, event: RelayEvent)
    ensures
        relay_step(stage, event).1 is Send ==> stage == RelayStage::Forwarding,
        relay_step(stage, event).1 == RelayAction::Open(Direction::Input) ==> stage
            == RelayStage::OpeningOutput,
{
}

} // verus!
