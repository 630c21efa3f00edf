use host_snapshot::cpu::CpuInfo;
use host_snapshot::sampler::{start, step, SamplerAction, SamplerEvent, SamplerState};

#[test]
fn the_sampler_sleeps_first() {
    assert_eq!(start(), (SamplerState::Sleeping, SamplerAction::Sleep));
}

#[test]
fn a_cycle_sleeps_measures_and_publishes() {
    let (state, _) = start();
    let (state, action) = step(state, SamplerEvent::Slept);
    assert_eq!((state, action), (SamplerState::Measuring, SamplerAction::Measure));
    let (state, action) = step(state, SamplerEvent::Measured { usage_bits: Some(1095237632) });
    assert_eq!(state, SamplerState::Publishing { usage_bits: 1095237632 });
    assert_eq!(action, SamplerAction::Publish { usage_bits: 1095237632 });
    let (state, action) = step(state, SamplerEvent::Published);
    assert_eq!((state, action), (SamplerState::Sleeping, SamplerAction::Sleep));
}

#[test]
fn a_failed_measurement_skips_the_publication() {
    let (state, action) = step(SamplerState::Measuring, SamplerEvent::Measured { usage_bits: None });
    assert_eq!((state, action), (SamplerState::Sleeping, SamplerAction::Sleep));
}

#[test]
fn an_event_that_answers_no_action_changes_nothing() {
    assert_eq!(
        step(SamplerState::Sleeping, SamplerEvent::Published),
        (SamplerState::Sleeping, SamplerAction::Sleep)
    );
    assert_eq!(
        step(SamplerState::Sleeping, SamplerEvent::Measured { usage_bits: Some(7) }),
        (SamplerState::Sleeping, SamplerAction::Sleep)
    );
    assert_eq!(
        step(SamplerState::Measuring, SamplerEvent::Slept),
        (SamplerState::Measuring, SamplerAction::Measure)
    );
    assert_eq!(
        step(SamplerState::Measuring, SamplerEvent::Published),
        (SamplerState::Measuring, SamplerAction::Measure)
    );
    assert_eq!(
        step(SamplerState::Publishing { usage_bits: 7 }, SamplerEvent::Slept),
        (SamplerState::Publishing { usage_bits: 7 }, SamplerAction::Publish { usage_bits: 7 })
    );
    assert_eq!(
        step(
            SamplerState::Publishing { usage_bits: 7 },
            SamplerEvent::Measured { usage_bits: Some(9) }
        ),
        (SamplerState::Publishing { usage_bits: 7 }, SamplerAction::Publish { usage_bits: 7 })
    );
}

#[test]
fn a_driven_sampler_publishes_what_was_measured_and_nothing_else() {
    let measurements = [Some(10u32), None, Some(30), Some(40), None];
    let mut next = measurements.iter();
    let mut cell = CpuInfo::new(None);
    let mut published = Vec::new();
    let (mut state, mut action) = start();
    let mut cycles = 0;
    while cycles < measurements.len() {
        let event = match action {
            SamplerAction::Sleep => SamplerEvent::Slept,
            SamplerAction::Measure => {
                cycles += 1;
                SamplerEvent::Measured { usage_bits: *next.next().unwrap() }
            }
            SamplerAction::Publish { usage_bits } => {
                cell.publish(usage_bits);
                published.push(usage_bits);
                SamplerEvent::Published
            }
        };
        (state, action) = step(state, event);
    }
    assert_eq!(published, vec![10, 30, 40]);
    assert_eq!(cell.snapshot().usage_bits, 40);
    assert_eq!(state, SamplerState::Sleeping);
}
