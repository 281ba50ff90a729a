use colored_noise::error::Error;
use colored_noise::session::{Controller, Phase, SignalAction};

#[test]
fn happy_path_reaches_playing_then_stops_cleanly() {
    let mut c = Controller::new();
    assert_eq!(c.phase(), Phase::Init);
    assert_eq!(c.signal_count(), 0);

    let bits = 0.1f32.to_bits();
    let a = c.validate_amplitude(bits).expect("default amplitude is valid");
    assert_eq!(a.bits(), bits);
    assert_eq!(c.phase(), Phase::Init);

    c.stream_opened();
    assert_eq!(c.phase(), Phase::StreamOpen);

    c.source_attached();
    assert_eq!(c.phase(), Phase::Playing);

    assert_eq!(c.signal(), SignalAction::Notify);
    c.termination_received();
    assert_eq!(c.phase(), Phase::Draining);

    c.drained();
    assert_eq!(c.phase(), Phase::Stopped);
    assert_eq!(c.signal_count(), 1);
}

#[test]
fn invalid_amplitude_fails_before_hardware() {
    let mut c = Controller::new();
    let bits = f32::NAN.to_bits();
    assert_eq!(c.validate_amplitude(bits), Err(Error::Amplitude(bits)));
    assert_eq!(c.phase(), Phase::Failed(Error::Amplitude(bits)));
}

#[test]
fn stream_open_failure_is_fatal() {
    let mut c = Controller::new();
    c.validate_amplitude(1.0f32.to_bits()).unwrap();
    c.stream_failed();
    assert_eq!(c.phase(), Phase::Failed(Error::Stream));
}

#[test]
fn signals_escalate_in_order() {
    let mut c = Controller::new();
    c.validate_amplitude(0.1f32.to_bits()).unwrap();
    c.stream_opened();
    c.source_attached();

    assert_eq!(c.signal(), SignalAction::Notify);
    assert_eq!(c.signal(), SignalAction::Warn);
    assert_eq!(c.signal(), SignalAction::ForceExit);
    assert_eq!(c.signal(), SignalAction::Abort);
    assert_eq!(c.signal(), SignalAction::Abort);
    assert_eq!(c.signal_count(), 5);
}

#[test]
fn second_signal_only_warns() {
    let mut c = Controller::new();
    c.validate_amplitude(0.1f32.to_bits()).unwrap();
    c.stream_opened();
    c.source_attached();
    c.signal();
    assert_eq!(c.signal(), SignalAction::Warn);
    assert_eq!(c.phase(), Phase::Playing);
}

#[test]
fn error_messages_are_single_lines() {
    assert_eq!(Error::TracingEnv.message(), "Could not set up tracing filter");
    assert_eq!(Error::TracingInit.message(), "Could not set up tracing registry");
    assert_eq!(Error::CtrlC.message(), "Cannot trap ctrl+C");
    assert_eq!(Error::Stream.message(), "Could not set up audio stream");
    assert_eq!(Error::Amplitude(0).message(), "Unsupported amplitude");
}
