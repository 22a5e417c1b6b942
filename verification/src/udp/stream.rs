//! The loop that keeps a command stream alive.
//!
//! Used for CAN bus sensors with hardware watchdogs that require periodic command
//! frames to keep the device active.
use crate::driver::{DriverError, SensorDriver};
use serde_json::Value;
use vstd::prelude::*;

verus! {

/// What wakes the loop.
#[derive(Debug, Clone, Copy, PartialEq, Eq, Structural)]
pub enum StreamEvent {
    /// The interval has passed.
    Tick,
    /// The stream was cancelled.
    Cancelled,
}

/// What the loop has done, and whether it goes on.
#[derive(Debug)]
pub enum StreamStep {
    /// The command was sent; the stream goes on.
    Sent,
    /// The command failed, which is to be logged; the stream goes on.
    Failed(DriverError),
    /// Nothing was sent; the stream has ended.
    Stopped,
}

/// Whether `step` is what follows from a command that ended in `outcome`.
pub open spec fn follows(step: StreamStep, outcome: Result<Value, DriverError>) -> bool {
    match outcome {
        Ok(_) => step is Sent,
        Err(error) => step == StreamStep::Failed(error),
    }
}

/// What the loop does when it wakes.
#[derive(Debug, Clone, Copy, PartialEq, Eq, Structural)]
pub enum StreamAction {
    /// Send the command once, and go on.
    Send,
    /// Send nothing, and end the stream.
    Stop,
}

/// What the loop does at an event: it sends at a tick, and at no other event.
pub open spec fn action_on(event: StreamEvent) -> StreamAction {
    match event {
        StreamEvent::Tick => StreamAction::Send,
        StreamEvent::Cancelled => StreamAction::Stop,
    }
}

/// Decides what the loop does at an event.
pub fn stream_action(event: StreamEvent) -> (action: StreamAction)
    ensures
        action == action_on(event),
        action is Send <==> event is Tick,
    no_unwind
{
    match event {
        StreamEvent::Tick => StreamAction::Send,
        StreamEvent::Cancelled => StreamAction::Stop,
    }
}

/// What follows from a command: a failure does not end the stream.
pub fn after_send(outcome: Result<Value, DriverError>) -> (step: StreamStep)
    ensures
        follows(step, outcome),
        outcome is Ok <==> step is Sent,
        outcome matches Err(error) ==> step == StreamStep::Failed(error),
{
    match outcome {
        Ok(_) => StreamStep::Sent,
        Err(error) => StreamStep::Failed(error),
    }
}

/// Takes one turn of the loop: where the action is to send, the driver gets the payload
/// once; where it is to stop, the driver is left alone and the stream ends.
///
/// A call of the driver may unwind, so that a stop cannot unwind says that the driver is
/// not called there. At a tick the contract ties the step to what a call with this payload
/// returned; how often the driver is called there is not part of it.
pub fn stream_step<D: SensorDriver + ?Sized>(
    driver: &D,
    payload: &Value,
    event: StreamEvent,
) -> (step: StreamStep)
    ensures
        step is Stopped <==> action_on(event) is Stop,
        step is Stopped <==> event is Cancelled,
        action_on(event) is Send ==> exists|outcome: Result<Value, DriverError>| #[trigger]
            call_ensures(D::execute_command, (driver, payload), outcome) && follows(
                step,
                outcome,
            ),
    no_unwind when action_on(event) is Stop
{
    match stream_action(event) {
        StreamAction::Send => {
            let outcome = driver.execute_command(payload);
            let ghost came = outcome;
            let step = after_send(outcome);
            assert(call_ensures(D::execute_command, (driver, payload), came) && follows(
                step,
                came,
            ));
            step
        },
        StreamAction::Stop => StreamStep::Stopped,
    }
}

/// What follows from a command tells how it ended: it was sent if and only if the driver
/// took it, and a failure is handed on as it came. Neither ends the stream.
pub proof fn step_tells_the_outcome(step: StreamStep, outcome: Result<Value, DriverError>)
    requires
        follows(step, outcome),
    ensures
        step is Sent <==> outcome is Ok,
        outcome matches Err(error) ==> step == StreamStep::Failed(error),
        step !is Stopped,
{
}

/// The loop sends at a tick and stops when it is cancelled.
pub proof fn only_a_tick_sends(event: StreamEvent)
    ensures
        action_on(event) is Send <==> event is Tick,
        action_on(event) is Stop <==> event is Cancelled,
{
}

/// The payloads that a stream sends on these events, in order: one for each event at
/// which it sends, up to the first at which it stops.
pub open spec fn commands_sent(payload: Value, events: Seq<StreamEvent>) -> Seq<Value>
    decreases events.len(),
{
    if events.len() == 0 || action_on(events[0]) is Stop {
        Seq::empty()
    } else {
        seq![payload] + commands_sent(payload, events.skip(1))
    }
}

/// Every command that a stream sends is its payload, and no more commands are sent than
/// there are events.
pub proof fn every_command_is_the_payload(payload: Value, events: Seq<StreamEvent>)
    ensures
        commands_sent(payload, events).len() <= events.len(),
        forall|i: int|
            0 <= i < commands_sent(payload, events).len() ==> #[trigger] commands_sent(
                payload,
                events,
            )[i] == payload,
    decreases events.len(),
{
    if events.len() > 0 && action_on(events[0]) is Send {
        every_command_is_the_payload(payload, events.skip(1));
        assert forall|i: int| 0 <= i < commands_sent(payload, events).len() implies #[trigger]
            commands_sent(payload, events)[i] == payload by {
            if i > 0 {
                assert(commands_sent(payload, events)[i] == commands_sent(
                    payload,
                    events.skip(1),
                )[i - 1]);
            }
        }
    }
}

/// A stream that is not cancelled sends a command at every tick.
pub proof fn running_stream_sends_every_tick(payload: Value, events: Seq<StreamEvent>)
    requires
        !events.contains(StreamEvent::Cancelled),
    ensures
        commands_sent(payload, events).len() == events.len(),
    decreases events.len(),
{
    if events.len() > 0 {
        assert(events.contains(events[0]));
        let rest = events.skip(1);
        assert forall|i: int| 0 <= i < rest.len() implies rest[i] != StreamEvent::Cancelled by {
            assert(events.contains(events[i + 1]));
        }
        running_stream_sends_every_tick(payload, rest);
    }
}

/// A cancelled stream sends nothing at the cancellation and nothing more, whatever comes
/// after it.
pub proof fn cancelled_stream_sends_no_more(
    payload: Value,
    before: Seq<StreamEvent>,
    after: Seq<StreamEvent>,
)
    ensures
        commands_sent(payload, before.push(StreamEvent::Cancelled) + after) == commands_sent(
            payload,
            before,
        ),
    decreases before.len(),
{
    let events = before.push(StreamEvent::Cancelled) + after;
    if before.len() > 0 {
        assert(events[0] == before[0]);
        if before[0] is Tick {
            assert(events.skip(1) =~= before.skip(1).push(StreamEvent::Cancelled) + after);
            cancelled_stream_sends_no_more(payload, before.skip(1), after);
        }
    }
}

/// Where the timer wakes the loop for the `k`-th time no earlier than `k` intervals after
/// the start, counted from zero, at most one command per interval and one at the start
/// have been sent at any time.
pub proof fn commands_keep_the_rate(
    payload: Value,
    events: Seq<StreamEvent>,
    times: Seq<nat>,
    interval: nat,
    now: nat,
)
    requires
        interval > 0,
        times.len() == events.len(),
        forall|k: int| 0 <= k < times.len() ==> k * interval <= #[trigger] times[k] <= now,
    ensures
        commands_sent(payload, events).len() <= now / interval + 1,
{
    every_command_is_the_payload(payload, events);
    if events.len() > 0 {
        let last = events.len() - 1;
        assert(last * interval <= times[last] <= now);
        assert(last <= now / interval) by (nonlinear_arith)
            requires
                last * interval <= now,
                interval > 0,
                last >= 0,
        ;
    }
}

} // verus!
