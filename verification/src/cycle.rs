//! What holds of every measurement cycle.
//!
//! The laws here are stated over runs of events: a run is replayed from a
//! phase with [`phase_after`], and [`last_action`] is the answer to its last
//! event.

use vstd::prelude::*;
use crate::channel::Channel;
use crate::config::SensorMode;
use crate::session::{out_of_sequence, timed_out, transition, ActionView, EventView, Phase};

verus! {

/// The phase a session is in after it has taken `events`, in order, from `phase`.
pub open spec fn phase_after(
    mode: SensorMode,
    poll_budget: u32,
    phase: Phase,
    events: Seq<EventView>,
) -> Phase
    decreases events.len(),
{
    if events.len() == 0 {
        phase
    } else {
        transition(
            mode,
            poll_budget,
            phase_after(mode, poll_budget, phase, events.drop_last()),
            events.last(),
        ).0
    }
}

/// The action that answers the last of `events`, taken in order from `phase`.
pub open spec fn last_action(
    mode: SensorMode,
    poll_budget: u32,
    phase: Phase,
    events: Seq<EventView>,
) -> ActionView
    recommends
        events.len() > 0,
{
    transition(
        mode,
        poll_budget,
        phase_after(mode, poll_budget, phase, events.drop_last()),
        events.last(),
    ).1
}

/// The largest number of events a session can take from `phase` before it is
/// idle again.
pub open spec fn steps_left(poll_budget: u32, phase: Phase) -> nat {
    match phase {
        Phase::Idle => (poll_budget + 3) as nat,
        Phase::Triggering => (poll_budget + 2) as nat,
        Phase::Triggered { polls_left } => if polls_left == 0 {
            2
        } else {
            (polls_left + 1) as nat
        },
        Phase::Ready => 1,
    }
}

/// What a forced-mode sensor that stays busy is told and tells: the start of a
/// cycle, the written trigger, and `polls` status polls that find it measuring.
pub open spec fn busy_script(polls: nat) -> Seq<EventView> {
    seq![EventView::Start, EventView::TriggerWritten] + Seq::new(
        polls,
        |i: int| EventView::StillMeasuring,
    )
}

/// A step ends the cycle exactly when it leaves the session idle, and a step
/// that does not end the cycle brings its end nearer: whatever the events, a
/// session is never more than `steps_left` events away from being idle again.
pub proof fn lemma_step_ends_or_advances(
    mode: SensorMode,
    poll_budget: u32,
    phase: Phase,
    event: EventView,
)
    ensures
        transition(mode, poll_budget, phase, event).1.is_final() <==> transition(
            mode,
            poll_budget,
            phase,
            event,
        ).0 is Idle,
        !(transition(mode, poll_budget, phase, event).0 is Idle) ==> steps_left(
            poll_budget,
            transition(mode, poll_budget, phase, event).0,
        ) < steps_left(poll_budget, phase),
{
}

/// A session follows one cycle at a time: a `Start` that arrives while a
/// cycle is in progress ends that cycle with `MeasurementFailed`.
pub proof fn lemma_reentrant_start_is_refused(mode: SensorMode, poll_budget: u32, phase: Phase)
    requires
        !(phase is Idle),
    ensures
        transition(mode, poll_budget, phase, EventView::Start) == (
            Phase::Idle,
            ActionView::Fail(out_of_sequence()),
        ),
{
}

/// A cycle cannot go on forever: a session that is in the middle of a cycle is
/// idle again after at most `steps_left` of the events it is handed, whatever
/// they are.
pub proof fn lemma_cycle_is_bounded(
    mode: SensorMode,
    poll_budget: u32,
    phase: Phase,
    events: Seq<EventView>,
)
    requires
        !(phase is Idle),
        events.len() >= steps_left(poll_budget, phase),
    ensures
        exists|k: int|
            0 < k <= steps_left(poll_budget, phase) && #[trigger] phase_after(
                mode,
                poll_budget,
                phase,
                events.take(k),
            ) is Idle,
    decreases steps_left(poll_budget, phase),
{
    let next = transition(mode, poll_budget, phase, events[0]).0;
    lemma_step_ends_or_advances(mode, poll_budget, phase, events[0]);
    assert(phase_after(mode, poll_budget, phase, events.take(1)) == next) by {
        reveal_with_fuel(phase_after, 2);
    }
    if !(next is Idle) {
        let rest = events.skip(1);
        lemma_cycle_is_bounded(mode, poll_budget, next, rest);
        let k = choose|k: int|
            0 < k <= steps_left(poll_budget, next) && #[trigger] phase_after(
                mode,
                poll_budget,
                next,
                rest.take(k),
            ) is Idle;
        lemma_phase_after_first(mode, poll_budget, phase, events.take(k + 1));
        assert(events.take(k + 1).skip(1) =~= rest.take(k));
    }
}

/// Taking a run of events is taking the first and then the rest.
proof fn lemma_phase_after_first(
    mode: SensorMode,
    poll_budget: u32,
    phase: Phase,
    events: Seq<EventView>,
)
    requires
        events.len() > 0,
    ensures
        phase_after(mode, poll_budget, phase, events) == phase_after(
            mode,
            poll_budget,
            transition(mode, poll_budget, phase, events[0]).0,
            events.skip(1),
        ),
    decreases events.len(),
{
    if events.len() == 1 {
        assert(events.drop_last() =~= Seq::<EventView>::empty());
        assert(events.skip(1) =~= Seq::<EventView>::empty());
    } else {
        lemma_phase_after_first(mode, poll_budget, phase, events.drop_last());
        assert(events.drop_last().skip(1) =~= events.skip(1).drop_last());
    }
}

/// A measurement that never finds the sensor ready times out: in forced mode,
/// as long as fewer polls than the budget have found the sensor busy the
/// session asks for another poll, and the poll that uses up the budget ends
/// the cycle with `MeasurementTimeout`. With a budget of 0 the cycle times out
/// as soon as the trigger is written.
pub proof fn lemma_unready_sensor_times_out(poll_budget: u32, polls: nat)
    requires
        polls <= poll_budget,
    ensures
        polls < poll_budget ==> phase_after(
            SensorMode::Forced,
            poll_budget,
            Phase::Idle,
            busy_script(polls),
        ) == (Phase::Triggered { polls_left: (poll_budget - polls) as u32 }) && last_action(
            SensorMode::Forced,
            poll_budget,
            Phase::Idle,
            busy_script(polls),
        ) == ActionView::PollStatus,
        polls == poll_budget ==> phase_after(
            SensorMode::Forced,
            poll_budget,
            Phase::Idle,
            busy_script(polls),
        ) == Phase::Idle && last_action(
            SensorMode::Forced,
            poll_budget,
            Phase::Idle,
            busy_script(polls),
        ) == ActionView::Fail(timed_out()),
    decreases polls,
{
    let mode = SensorMode::Forced;
    let script = busy_script(polls);
    if polls == 0 {
        let start = seq![EventView::Start];
        assert(script.drop_last() =~= start);
        assert(phase_after(mode, poll_budget, Phase::Idle, start) == Phase::Triggering) by {
            reveal_with_fuel(phase_after, 2);
        }
    } else {
        lemma_unready_sensor_times_out(poll_budget, (polls - 1) as nat);
        assert(script.drop_last() =~= busy_script((polls - 1) as nat));
    }
}

/// What a forced-mode sensor is told and tells in a measurement that
/// succeeds: the start of the cycle, the written trigger, `polls` status polls
/// that find it measuring, one that finds it done, and the sample.
pub open spec fn full_script(polls: nat, values: Map<Channel, Seq<char>>) -> Seq<EventView> {
    busy_script(polls).push(EventView::DataReady).push(EventView::SampleRead(values))
}

/// What the phase of a forced-mode session says of the events that led to it:
/// they end with as much of a measurement as the phase stands for, begun when
/// the session was idle.
spec fn in_step(poll_budget: u32, events: Seq<EventView>, phase: Phase) -> bool {
    match phase {
        Phase::Idle => true,
        Phase::Triggering => exists|before: Seq<EventView>|
            {
                &&& events == #[trigger] before.push(EventView::Start)
                &&& phase_after(SensorMode::Forced, poll_budget, Phase::Idle, before) is Idle
            },
        Phase::Triggered { polls_left } => exists|before: Seq<EventView>, polls: nat|
            {
                &&& events == #[trigger] (before + busy_script(polls))
                &&& phase_after(SensorMode::Forced, poll_budget, Phase::Idle, before) is Idle
                &&& polls_left >= 1
                &&& polls_left + polls == poll_budget
            },
        Phase::Ready => exists|before: Seq<EventView>, polls: nat|
            {
                &&& events == #[trigger] (before + busy_script(polls)).push(EventView::DataReady)
                &&& phase_after(SensorMode::Forced, poll_budget, Phase::Idle, before) is Idle
                &&& polls < poll_budget
            },
    }
}

/// Whatever events a forced-mode session is handed, its phase is in step with
/// them.
proof fn lemma_phase_is_in_step(poll_budget: u32, events: Seq<EventView>)
    ensures
        in_step(
            poll_budget,
            events,
            phase_after(SensorMode::Forced, poll_budget, Phase::Idle, events),
        ),
    decreases events.len(),
{
    let mode = SensorMode::Forced;
    if events.len() > 0 {
        let earlier = events.drop_last();
        let event = events.last();
        let phase = phase_after(mode, poll_budget, Phase::Idle, earlier);
        let next = phase_after(mode, poll_budget, Phase::Idle, events);
        lemma_phase_is_in_step(poll_budget, earlier);
        assert(events =~= earlier.push(event));
        match next {
            Phase::Idle | Phase::Triggering => {},
            Phase::Triggered { .. } => {
                if phase is Triggering {
                    // The trigger was written: no poll yet.
                    let before = choose|before: Seq<EventView>|
                        {
                            &&& earlier == #[trigger] before.push(EventView::Start)
                            &&& phase_after(mode, poll_budget, Phase::Idle, before) is Idle
                        };
                    assert(events =~= before + busy_script(0));
                } else {
                    // One more poll found the sensor busy.
                    let (before, polls) = choose|before: Seq<EventView>, polls: nat|
                        {
                            &&& earlier == #[trigger] (before + busy_script(polls))
                            &&& phase_after(mode, poll_budget, Phase::Idle, before) is Idle
                            &&& phase->polls_left >= 1
                            &&& phase->polls_left + polls == poll_budget
                        };
                    assert(events =~= before + busy_script(polls + 1));
                }
            },
            Phase::Ready => {
                // A poll found the data ready.
                assert(phase is Triggered && event == EventView::DataReady);
            },
        }
    }
}

/// A reading is delivered only at the end of a whole measurement: when a
/// forced-mode session that started idle delivers, the events it was handed
/// end with the start of a cycle, the written trigger, fewer busy polls than
/// the budget, a poll that found the data ready, and the sample it delivers;
/// and the session was idle when that cycle started.
pub proof fn lemma_delivery_ends_a_full_measurement(
    poll_budget: u32,
    events: Seq<EventView>,
    values: Map<Channel, Seq<char>>,
)
    requires
        events.len() > 0,
        last_action(SensorMode::Forced, poll_budget, Phase::Idle, events) == ActionView::Deliver(
            values,
        ),
    ensures
        exists|before: Seq<EventView>, polls: nat|
            events == #[trigger] (before + full_script(polls, values)) && phase_after(
                SensorMode::Forced,
                poll_budget,
                Phase::Idle,
                before,
            ) is Idle && polls < poll_budget,
{
    let mode = SensorMode::Forced;
    let earlier = events.drop_last();
    lemma_phase_is_in_step(poll_budget, earlier);
    // Only a sample that arrives while the session is `Ready` is delivered.
    assert(phase_after(mode, poll_budget, Phase::Idle, earlier) is Ready);
    let (before, polls) = choose|before: Seq<EventView>, polls: nat|
        {
            &&& earlier == #[trigger] (before + busy_script(polls)).push(EventView::DataReady)
            &&& phase_after(mode, poll_budget, Phase::Idle, before) is Idle
            &&& polls < poll_budget
        };
    assert(events =~= earlier.push(EventView::SampleRead(values)));
    assert(events =~= before + full_script(polls, values));
}

} // verus!
