//! Event routing: how a half hands a new event to the bounded event channel
//! without ever blocking on it, and the order in which the central's
//! processors see each event.

use vstd::prelude::*;

verus! {

/// How a producer hands an event to the bounded event channel.
#[derive(Clone, Copy, Debug, PartialEq, Eq)]
pub enum ForwardPlan {
    /// There is room: send the event.
    Send,
    /// The channel is full: take out the oldest event, then send.
    DropOldestThenSend,
}

pub open spec fn forward_plan_spec(channel_full: bool) -> ForwardPlan {
    if channel_full { ForwardPlan::DropOldestThenSend } else { ForwardPlan::Send }
}

/// Chooses how to send an event, given whether the channel is full.
pub fn forward_plan(channel_full: bool) -> (plan: ForwardPlan)
    ensures
        plan == forward_plan_spec(channel_full),
{
    if channel_full { ForwardPlan::DropOldestThenSend } else { ForwardPlan::Send }
}

/// The contents of a first-in first-out channel after `plan` is carried out
/// with `event`: a receive takes the oldest entry, a send appends.
pub open spec fn channel_after<E>(queue: Seq<E>, plan: ForwardPlan, event: E) -> Seq<E> {
    match plan {
        ForwardPlan::Send => queue.push(event),
        ForwardPlan::DropOldestThenSend => queue.drop_first().push(event),
    }
}

/// Forwarding never overfills the channel, so the send never waits; the new
/// event is always the newest entry; and at most the single oldest event is
/// lost, only when the channel was full.
pub proof fn lemma_forward_keeps_newest<E>(queue: Seq<E>, capacity: nat, event: E)
    requires
        0 < capacity,
        queue.len() <= capacity,
    ensures
        ({
            let after = channel_after(queue, forward_plan_spec(queue.len() == capacity), event);
            &&& after.len() <= capacity
            &&& after.last() == event
            &&& queue.len() < capacity ==> after.drop_last() == queue
            &&& queue.len() == capacity ==> after.drop_last() == queue.drop_first()
        }),
{
    let after = channel_after(queue, forward_plan_spec(queue.len() == capacity), event);
    if queue.len() < capacity {
        assert(after.drop_last() =~= queue);
    } else {
        assert(after.drop_last() =~= queue.drop_first());
    }
}

/// A processor on the central's event loop.
#[derive(Clone, Copy, Debug, PartialEq, Eq)]
pub enum Stage {
    /// Battery level reports.
    Battery,
    /// Joystick and trackball movement, turned into mouse reports.
    Joystick,
}

/// What a processor did with an event.
#[derive(Clone, Copy, Debug, PartialEq, Eq)]
pub enum StageOutcome {
    /// The event was consumed.
    Stop,
    /// The event (possibly changed) goes on.
    Continue,
}

pub open spec fn next_stage_spec(stage: Stage, outcome: StageOutcome) -> Option<Stage> {
    match (stage, outcome) {
        (Stage::Battery, StageOutcome::Continue) => Some(Stage::Joystick),
        _ => None,
    }
}

/// The processor that sees each new event first.
pub fn first_stage() -> (stage: Stage)
    ensures
        stage == Stage::Battery,
{
    Stage::Battery
}

/// The processor that sees the event after `stage` dealt with it, or `None`
/// when the event is done with.
pub fn next_stage(stage: Stage, outcome: StageOutcome) -> (next: Option<Stage>)
    ensures
        next == next_stage_spec(stage, outcome),
{
    match (stage, outcome) {
        (Stage::Battery, StageOutcome::Continue) => Some(Stage::Joystick),
        _ => None,
    }
}

/// The joystick processor sees exactly the events that the battery processor
/// passes on, and is the last processor.
pub proof fn lemma_chain_order(battery: StageOutcome, joystick: StageOutcome)
    ensures
        next_stage_spec(Stage::Battery, battery) == Some(Stage::Joystick) <==> battery == StageOutcome::Continue,
        next_stage_spec(Stage::Joystick, joystick) is None,
{
}

} // verus!
