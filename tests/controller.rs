use audio_logger::controller::{Action, Controller, Event, FailureKind, Mode, Phase};
use audio_logger::format::{Conversion, InputFormat, StreamSettings};
use audio_logger::signals::StopSignals;

fn settings(format: InputFormat) -> StreamSettings {
    StreamSettings::negotiate(format, 48000, 2, 1024).unwrap()
}

fn stopped() -> StopSignals {
    let mut s = StopSignals::new();
    s.request_stop();
    s
}

fn start_segment(c: &mut Controller, sig: StopSignals) {
    let spec = c.output_spec();
    assert_eq!(c.step(Event::Begin(sig)), Action::OpenFile(spec));
    assert!(matches!(c.step(Event::FileOpened), Action::StartStream(_)));
    assert_eq!(c.step(Event::StreamStarted), Action::Wait);
    assert_eq!(c.phase(), Phase::Recording);
}

#[test]
fn continuous_records_until_segment_stop() {
    let mut c = Controller::new(Mode::Continuous, settings(InputFormat::I16));
    start_segment(&mut c, StopSignals::new());
    assert_eq!(c.step(Event::Tick(3600, StopSignals::new())), Action::Wait);
    assert_eq!(c.step(Event::Tick(3601, stopped())), Action::StopStream);
    assert_eq!(c.step(Event::StreamStopped), Action::FinalizeFile);
    assert_eq!(c.step(Event::Finalized), Action::Finish);
    assert_eq!(c.phase(), Phase::Done);
    assert_eq!(c.step(Event::Begin(StopSignals::new())), Action::Ignore);
}

#[test]
fn timed_segment_stops_early_on_request() {
    let mut c = Controller::new(Mode::Timed(10), settings(InputFormat::F32));
    start_segment(&mut c, StopSignals::new());
    assert_eq!(c.step(Event::Tick(1, StopSignals::new())), Action::Wait);
    assert_eq!(c.step(Event::Tick(2, stopped())), Action::StopStream);
    assert_eq!(c.step(Event::StreamStopped), Action::FinalizeFile);
    assert_eq!(c.step(Event::Finalized), Action::Finish);
}

#[test]
fn timed_segment_ends_at_its_length() {
    let mut c = Controller::new(Mode::Timed(10), settings(InputFormat::F32));
    start_segment(&mut c, StopSignals::new());
    assert_eq!(c.step(Event::Tick(9, StopSignals::new())), Action::Wait);
    assert_eq!(c.step(Event::Tick(10, StopSignals::new())), Action::StopStream);
}

#[test]
fn batch_finishes_current_file_before_stopping() {
    let mut c = Controller::new(Mode::Batch(1), settings(InputFormat::U16));
    let spec = c.output_spec();
    start_segment(&mut c, StopSignals::new());
    assert_eq!(c.step(Event::Tick(0, stopped())), Action::Wait);
    assert_eq!(c.step(Event::Tick(1, stopped())), Action::StopStream);
    assert_eq!(c.step(Event::StreamStopped), Action::FinalizeFile);
    assert_eq!(c.step(Event::Finalized), Action::NextSegment);
    assert_eq!(c.phase(), Phase::Idle);
    assert_eq!(c.step(Event::Begin(stopped())), Action::Finish);
    assert_eq!(c.phase(), Phase::Done);
    assert_eq!(c.output_spec(), spec);
}

#[test]
fn batch_opens_each_file_with_the_same_header() {
    let mut c = Controller::new(Mode::Batch(1), settings(InputFormat::I16));
    let spec = settings(InputFormat::I16).output_spec();
    for _ in 0..3 {
        assert_eq!(c.step(Event::Begin(StopSignals::new())), Action::OpenFile(spec));
        assert_eq!(c.step(Event::FileOpened), Action::StartStream(Conversion::KeepSigned));
        assert_eq!(c.step(Event::StreamStarted), Action::Wait);
        assert_eq!(c.step(Event::Tick(1, StopSignals::new())), Action::StopStream);
        assert_eq!(c.step(Event::StreamStopped), Action::FinalizeFile);
        assert_eq!(c.step(Event::Finalized), Action::NextSegment);
    }
}

#[test]
fn conversion_follows_input_format() {
    let mut c = Controller::new(Mode::Continuous, settings(InputFormat::U16));
    c.step(Event::Begin(StopSignals::new()));
    assert_eq!(c.step(Event::FileOpened), Action::StartStream(Conversion::UnsignedToSigned));
}

#[test]
fn failed_stream_start_closes_file_then_fails() {
    let mut c = Controller::new(Mode::Timed(5), settings(InputFormat::I16));
    c.step(Event::Begin(StopSignals::new()));
    c.step(Event::FileOpened);
    assert_eq!(c.step(Event::StreamFailed), Action::FinalizeFile);
    assert_eq!(c.step(Event::Finalized), Action::Fail(FailureKind::StreamInit));
    assert_eq!(c.phase(), Phase::Failed);
}

#[test]
fn failed_file_open_fails_at_once() {
    let mut c = Controller::new(Mode::Batch(5), settings(InputFormat::I16));
    c.step(Event::Begin(StopSignals::new()));
    assert_eq!(c.step(Event::FileOpenFailed), Action::Fail(FailureKind::Encode));
    assert_eq!(c.phase(), Phase::Failed);
}

#[test]
fn failed_finalize_ends_batch() {
    let mut c = Controller::new(Mode::Batch(1), settings(InputFormat::I16));
    start_segment(&mut c, StopSignals::new());
    c.step(Event::Tick(1, StopSignals::new()));
    c.step(Event::StreamStopped);
    assert_eq!(c.step(Event::FinalizeFailed), Action::Fail(FailureKind::Encode));
    assert_eq!(c.phase(), Phase::Failed);
}

#[test]
fn out_of_order_events_are_ignored() {
    let mut c = Controller::new(Mode::Continuous, settings(InputFormat::I16));
    assert_eq!(c.step(Event::Finalized), Action::Ignore);
    assert_eq!(c.step(Event::Tick(1, stopped())), Action::Ignore);
    assert_eq!(c.phase(), Phase::Idle);
    start_segment(&mut c, StopSignals::new());
    assert_eq!(c.step(Event::Finalized), Action::Ignore);
    assert_eq!(c.phase(), Phase::Recording);
}

#[test]
fn failed_close_after_failed_start_reports_the_start() {
    let mut c = Controller::new(Mode::Continuous, settings(InputFormat::F32));
    c.step(Event::Begin(StopSignals::new()));
    c.step(Event::FileOpened);
    c.step(Event::StreamFailed);
    assert_eq!(c.step(Event::FinalizeFailed), Action::Fail(FailureKind::StreamInit));
}
