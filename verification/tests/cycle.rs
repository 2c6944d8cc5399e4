use bme280_exporter::config::{SamplingConfiguration, SensorMode};
use bme280_exporter::error::{ErrorKind, SensorError};
use bme280_exporter::reading::Reading;
use bme280_exporter::sample::Sample;
use bme280_exporter::session::{Action, Event, Phase, Session};

fn forced(poll_budget: u32) -> Session {
    Session::new(&SamplingConfiguration::standard(), poll_budget)
}

fn continuous() -> Session {
    let mut configuration = SamplingConfiguration::standard();
    configuration.mode = SensorMode::Continuous;
    Session::new(&configuration, 10)
}

fn reading() -> Reading {
    Reading::new(Sample::parse("22.5"), None, Sample::parse("45"))
}

fn timeout() -> Action {
    Action::Fail(SensorError::new(
        ErrorKind::MeasurementTimeout,
        String::from("sensor still measuring after the last poll"),
    ))
}

fn out_of_sequence() -> Action {
    Action::Fail(SensorError::new(
        ErrorKind::MeasurementFailed,
        String::from("sensor response out of sequence"),
    ))
}

#[test]
fn a_new_session_is_idle() {
    assert_eq!(forced(10).phase(), Phase::Idle);
    assert_eq!(continuous().phase(), Phase::Idle);
}

#[test]
fn a_forced_cycle_triggers_polls_and_reads() {
    let mut session = forced(10);
    assert_eq!(session.step(Event::Start), Action::Trigger);
    assert_eq!(session.phase(), Phase::Triggering);
    assert_eq!(session.step(Event::TriggerWritten), Action::PollStatus);
    assert_eq!(session.phase(), Phase::Triggered { polls_left: 10 });
    assert_eq!(session.step(Event::StillMeasuring), Action::PollStatus);
    assert_eq!(session.phase(), Phase::Triggered { polls_left: 9 });
    assert_eq!(session.step(Event::StillMeasuring), Action::PollStatus);
    assert_eq!(session.phase(), Phase::Triggered { polls_left: 8 });
    assert_eq!(session.step(Event::DataReady), Action::ReadSample);
    assert_eq!(session.phase(), Phase::Ready);
    assert_eq!(session.step(Event::SampleRead(reading())), Action::Deliver(reading()));
    assert_eq!(session.phase(), Phase::Idle);
}

#[test]
fn a_continuous_cycle_reads_at_once() {
    let mut session = continuous();
    assert_eq!(session.step(Event::Start), Action::ReadSample);
    assert_eq!(session.phase(), Phase::Ready);
    assert_eq!(session.step(Event::SampleRead(reading())), Action::Deliver(reading()));
    assert_eq!(session.phase(), Phase::Idle);
}

#[test]
fn a_sensor_that_is_ready_at_the_first_poll_is_read() {
    let mut session = forced(1);
    assert_eq!(session.step(Event::Start), Action::Trigger);
    assert_eq!(session.step(Event::TriggerWritten), Action::PollStatus);
    assert_eq!(session.step(Event::DataReady), Action::ReadSample);
    assert_eq!(session.step(Event::SampleRead(reading())), Action::Deliver(reading()));
}

#[test]
fn a_sensor_that_stays_busy_times_out_after_the_budget() {
    let mut session = forced(3);
    assert_eq!(session.step(Event::Start), Action::Trigger);
    assert_eq!(session.step(Event::TriggerWritten), Action::PollStatus);
    assert_eq!(session.step(Event::StillMeasuring), Action::PollStatus);
    assert_eq!(session.step(Event::StillMeasuring), Action::PollStatus);
    assert_eq!(session.step(Event::StillMeasuring), timeout());
    assert_eq!(session.phase(), Phase::Idle);
}

#[test]
fn a_sensor_that_is_ready_at_the_last_poll_is_read() {
    let mut session = forced(3);
    session.step(Event::Start);
    session.step(Event::TriggerWritten);
    assert_eq!(session.step(Event::StillMeasuring), Action::PollStatus);
    assert_eq!(session.step(Event::StillMeasuring), Action::PollStatus);
    assert_eq!(session.step(Event::DataReady), Action::ReadSample);
}

#[test]
fn a_budget_of_one_allows_one_poll() {
    let mut session = forced(1);
    session.step(Event::Start);
    assert_eq!(session.step(Event::TriggerWritten), Action::PollStatus);
    assert_eq!(session.step(Event::StillMeasuring), timeout());
}

#[test]
fn a_budget_of_zero_times_out_without_a_poll() {
    let mut session = forced(0);
    assert_eq!(session.step(Event::Start), Action::Trigger);
    assert_eq!(session.step(Event::TriggerWritten), timeout());
    assert_eq!(session.phase(), Phase::Idle);
}

#[test]
fn the_largest_budget_counts_down() {
    let mut session = forced(u32::MAX);
    session.step(Event::Start);
    session.step(Event::TriggerWritten);
    assert_eq!(session.phase(), Phase::Triggered { polls_left: u32::MAX });
    assert_eq!(session.step(Event::StillMeasuring), Action::PollStatus);
    assert_eq!(session.phase(), Phase::Triggered { polls_left: u32::MAX - 1 });
}

#[test]
fn a_bus_failure_ends_the_cycle_in_any_phase() {
    let failed = || {
        Action::Fail(SensorError::new(ErrorKind::MeasurementFailed, String::from("EIO")))
    };
    let mut session = forced(10);
    session.step(Event::Start);
    assert_eq!(session.step(Event::BusFailed(String::from("EIO"))), failed());
    assert_eq!(session.phase(), Phase::Idle);

    session.step(Event::Start);
    session.step(Event::TriggerWritten);
    assert_eq!(session.step(Event::BusFailed(String::from("EIO"))), failed());
    assert_eq!(session.phase(), Phase::Idle);

    session.step(Event::Start);
    session.step(Event::TriggerWritten);
    session.step(Event::DataReady);
    assert_eq!(session.step(Event::BusFailed(String::from("EIO"))), failed());
    assert_eq!(session.phase(), Phase::Idle);

    assert_eq!(session.step(Event::BusFailed(String::from("EIO"))), failed());
    assert_eq!(session.phase(), Phase::Idle);
}

#[test]
fn a_failed_cycle_leaves_the_session_ready_for_the_next() {
    let mut session = forced(1);
    session.step(Event::Start);
    session.step(Event::TriggerWritten);
    assert_eq!(session.step(Event::StillMeasuring), timeout());
    assert_eq!(session.step(Event::Start), Action::Trigger);
    assert_eq!(session.step(Event::TriggerWritten), Action::PollStatus);
    assert_eq!(session.step(Event::DataReady), Action::ReadSample);
    assert_eq!(session.step(Event::SampleRead(reading())), Action::Deliver(reading()));
}

#[test]
fn a_start_during_a_cycle_fails_the_cycle() {
    let mut session = forced(10);
    session.step(Event::Start);
    assert_eq!(session.step(Event::Start), out_of_sequence());
    assert_eq!(session.phase(), Phase::Idle);

    session.step(Event::Start);
    session.step(Event::TriggerWritten);
    assert_eq!(session.step(Event::Start), out_of_sequence());
    assert_eq!(session.phase(), Phase::Idle);

    let mut session = continuous();
    session.step(Event::Start);
    assert_eq!(session.step(Event::Start), out_of_sequence());
    assert_eq!(session.phase(), Phase::Idle);
}

#[test]
fn an_event_out_of_sequence_fails_the_cycle() {
    let mut session = forced(10);
    assert_eq!(session.step(Event::TriggerWritten), out_of_sequence());
    assert_eq!(session.step(Event::StillMeasuring), out_of_sequence());
    assert_eq!(session.step(Event::DataReady), out_of_sequence());
    assert_eq!(session.step(Event::SampleRead(reading())), out_of_sequence());
    assert_eq!(session.phase(), Phase::Idle);

    session.step(Event::Start);
    assert_eq!(session.step(Event::DataReady), out_of_sequence());
    assert_eq!(session.phase(), Phase::Idle);

    session.step(Event::Start);
    assert_eq!(session.step(Event::SampleRead(reading())), out_of_sequence());

    session.step(Event::Start);
    session.step(Event::TriggerWritten);
    assert_eq!(session.step(Event::TriggerWritten), out_of_sequence());

    session.step(Event::Start);
    session.step(Event::TriggerWritten);
    session.step(Event::DataReady);
    assert_eq!(session.step(Event::DataReady), out_of_sequence());
    assert_eq!(session.phase(), Phase::Idle);
}

#[test]
fn a_forced_cycle_never_takes_more_events_than_the_budget_allows() {
    for budget in 0..6u32 {
        let mut session = forced(budget);
        let mut events = 1;
        let mut action = session.step(Event::Start);
        loop {
            let event = match action {
                Action::Trigger => Event::TriggerWritten,
                Action::PollStatus => Event::StillMeasuring,
                Action::ReadSample => Event::SampleRead(reading()),
                Action::Deliver(_) | Action::Fail(_) => break,
            };
            action = session.step(event);
            events += 1;
        }
        assert!(events <= budget + 3);
        assert_eq!(action, timeout());
    }
}

#[test]
fn only_the_last_action_of_a_cycle_has_an_outcome() {
    assert_eq!(Action::Trigger.outcome(), None);
    assert_eq!(Action::PollStatus.outcome(), None);
    assert_eq!(Action::ReadSample.outcome(), None);
    assert_eq!(Action::Deliver(reading()).outcome(), Some(Ok(reading())));
    let error = SensorError::new(ErrorKind::MeasurementFailed, String::from("EIO"));
    assert_eq!(Action::Fail(error.clone()).outcome(), Some(Err(error)));
}

#[test]
fn a_session_keeps_its_mode_and_budget() {
    let mut session = forced(7);
    assert_eq!(session.mode(), SensorMode::Forced);
    assert_eq!(session.poll_budget(), 7);
    session.step(Event::Start);
    session.step(Event::TriggerWritten);
    session.step(Event::StillMeasuring);
    session.step(Event::BusFailed(String::from("EIO")));
    assert_eq!(session.mode(), SensorMode::Forced);
    assert_eq!(session.poll_budget(), 7);
    assert_eq!(continuous().mode(), SensorMode::Continuous);
}
