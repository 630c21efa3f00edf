//! The sampler's endless cycle: sleep, measure, publish.
//!
//! The cycle is a state machine. Its driver performs each action and reports
//! back with an event; it sleeps and measures without the lock on the shared
//! reading and takes that lock for the publication alone.

use vstd::prelude::*;

use crate::cpu::{cell_after, CellOp, CpuInfoView};

verus! {

/// Where the sampler stands in its cycle.
#[derive(Clone, Copy, Debug, PartialEq, Eq)]
pub enum SamplerState {
    /// Waiting out the interval over which a load can be measured.
    Sleeping,
    /// Measuring the load of all cores.
    Measuring,
    /// Storing a measured total in the shared reading.
    Publishing { usage_bits: u32 },
}

/// What the driver reports when an action is done.
#[derive(Clone, Copy, Debug, PartialEq, Eq)]
pub enum SamplerEvent {
    /// The interval has passed.
    Slept,
    /// The measurement ended: with the total load, or without one where it
    /// failed.
    Measured { usage_bits: Option<u32> },
    /// The total is stored and the lock released.
    Published,
}

/// What the driver is to do next.
#[derive(Clone, Copy, Debug, PartialEq, Eq)]
pub enum SamplerAction {
    /// Wait for the measuring interval.
    Sleep,
    /// Measure all cores and add up their loads.
    Measure,
    /// Store this total in the shared reading, under its write lock.
    Publish { usage_bits: u32 },
}

/// The action that belongs to a state.
pub open spec fn action_of(state: SamplerState) -> SamplerAction {
    match state {
        SamplerState::Sleeping => SamplerAction::Sleep,
        SamplerState::Measuring => SamplerAction::Measure,
        SamplerState::Publishing { usage_bits } => SamplerAction::Publish { usage_bits },
    }
}

/// The state that follows `state` on `event`. A failed measurement skips the
/// publication; an event that does not answer the state's action changes
/// nothing.
pub open spec fn next_state(state: SamplerState, event: SamplerEvent) -> SamplerState {
    match (state, event) {
        (SamplerState::Sleeping, SamplerEvent::Slept) => SamplerState::Measuring,
        (
            SamplerState::Measuring,
            SamplerEvent::Measured { usage_bits: Some(total) },
        ) => SamplerState::Publishing { usage_bits: total },
        (
            SamplerState::Measuring,
            SamplerEvent::Measured { usage_bits: None },
        ) => SamplerState::Sleeping,
        (SamplerState::Publishing { .. }, SamplerEvent::Published) => SamplerState::Sleeping,
        _ => state,
    }
}

/// The state after `events`, from the start of the cycle.
pub open spec fn state_after(events: Seq<SamplerEvent>) -> SamplerState
    decreases events.len(),
{
    if events.len() == 0 {
        SamplerState::Sleeping
    } else {
        next_state(state_after(events.drop_last()), events.last())
    }
}

/// The totals that the sampler took from successful measurements during
/// `events`, oldest first.
pub open spec fn measured_during(events: Seq<SamplerEvent>) -> Seq<u32>
    decreases events.len(),
{
    if events.len() == 0 {
        Seq::empty()
    } else {
        let earlier = measured_during(events.drop_last());
        match (state_after(events.drop_last()), events.last()) {
            (
                SamplerState::Measuring,
                SamplerEvent::Measured { usage_bits: Some(total) },
            ) => earlier.push(total),
            _ => earlier,
        }
    }
}

/// The totals whose publication was completed during `events`, oldest first.
pub open spec fn published_during(events: Seq<SamplerEvent>) -> Seq<u32>
    decreases events.len(),
{
    if events.len() == 0 {
        Seq::empty()
    } else {
        let earlier = published_during(events.drop_last());
        match (state_after(events.drop_last()), events.last()) {
            (
                SamplerState::Publishing { usage_bits },
                SamplerEvent::Published,
            ) => earlier.push(usage_bits),
            _ => earlier,
        }
    }
}

/// The start of the cycle: the sampler sleeps first.
pub fn start() -> (first: (SamplerState, SamplerAction))
    ensures
        first.0 == state_after(Seq::empty()),
        first.1 == action_of(first.0),
{
    (SamplerState::Sleeping, SamplerAction::Sleep)
}

/// One step of the cycle: the state that follows `state` on `event`, and the
/// action to perform in it.
pub fn step(state: SamplerState, event: SamplerEvent) -> (next: (SamplerState, SamplerAction))
    ensures
        next.0 == next_state(state, event),
        next.1 == action_of(next.0),
{
    match state {
        SamplerState::Sleeping => match event {
            SamplerEvent::Slept => (SamplerState::Measuring, SamplerAction::Measure),
            _ => (SamplerState::Sleeping, SamplerAction::Sleep),
        },
        SamplerState::Measuring => match event {
            SamplerEvent::Measured { usage_bits: Some(total) } => (
                SamplerState::Publishing { usage_bits: total },
                SamplerAction::Publish { usage_bits: total },
            ),
            SamplerEvent::Measured { usage_bits: None } => (
                SamplerState::Sleeping,
                SamplerAction::Sleep,
            ),
            _ => (SamplerState::Measuring, SamplerAction::Measure),
        },
        SamplerState::Publishing { usage_bits } => match event {
            SamplerEvent::Published => (SamplerState::Sleeping, SamplerAction::Sleep),
            _ => (SamplerState::Publishing { usage_bits }, SamplerAction::Publish { usage_bits }),
        },
    }
}

/// One whole cycle with a successful measurement leads through all three
/// actions and back to sleeping.
pub proof fn lemma_cycle_publishes_the_measurement(total: u32)
    ensures
        action_of(next_state(SamplerState::Sleeping, SamplerEvent::Slept)) == SamplerAction::Measure,
        action_of(
            next_state(SamplerState::Measuring, SamplerEvent::Measured { usage_bits: Some(total) }),
        ) == (SamplerAction::Publish { usage_bits: total }),
        next_state(
            SamplerState::Publishing { usage_bits: total },
            SamplerEvent::Published,
        ) == SamplerState::Sleeping,
{
}

/// A failed measurement costs the cycle its update and nothing else: the
/// sampler goes back to sleeping and nothing is published.
pub proof fn lemma_failed_measurement_changes_nothing(events: Seq<SamplerEvent>)
    requires
        state_after(events) == SamplerState::Measuring,
    ensures
        state_after(events.push(SamplerEvent::Measured { usage_bits: None }))
            == SamplerState::Sleeping,
        published_during(events.push(SamplerEvent::Measured { usage_bits: None }))
            == published_during(events),
        measured_during(events.push(SamplerEvent::Measured { usage_bits: None }))
            == measured_during(events),
{
    let longer = events.push(SamplerEvent::Measured { usage_bits: None });
    assert(longer.drop_last() =~= events);
}

/// What is published is what was measured: the totals stored are the totals
/// of the successful measurements, in their order and each once, save the
/// one total that the sampler is about to store.
pub proof fn lemma_publishes_exactly_what_was_measured(events: Seq<SamplerEvent>)
    ensures
        match state_after(events) {
            SamplerState::Publishing { usage_bits } => measured_during(events)
                == published_during(events).push(usage_bits),
            _ => measured_during(events) == published_during(events),
        },
    decreases events.len(),
{
    if events.len() > 0 {
        lemma_publishes_exactly_what_was_measured(events.drop_last());
    }
}

/// The writes on the shared reading that store `totals`, one after the other.
pub open spec fn writes_of(totals: Seq<u32>) -> Seq<CellOp> {
    totals.map_values(|total: u32| CellOp::Write(total))
}

/// The shared reading follows the sampler: after the publications completed
/// during `events` it holds the last total published, or what it started
/// with where there was none, and the brand it started with.
pub proof fn lemma_reading_holds_last_publication(start: CpuInfoView, events: Seq<SamplerEvent>)
    ensures
        published_during(events).len() == 0 ==> cell_after(
            start,
            writes_of(published_during(events)),
        ) == start,
        published_during(events).len() > 0 ==> cell_after(
            start,
            writes_of(published_during(events)),
        ) == (CpuInfoView { model: start.model, usage_bits: published_during(events).last() }),
{
    let writes = writes_of(published_during(events));
    if writes.len() > 0 {
        crate::cpu::lemma_model_never_changes(start, writes.drop_last());
    }
}

} // verus!
