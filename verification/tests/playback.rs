use amethyst_audio_input::output::{
    device_label, should_log, OutputError, PlayCommand, PlayError, PlayEvent, PlaySession,
};
use amethyst_audio_input::source::{DecoderError, Source};

#[test]
fn zero_repeats_enqueues_nothing_and_succeeds() {
    let mut s = PlaySession::begin(0);
    assert_eq!(s.command(), PlayCommand::SpawnSink);
    s.step(PlayEvent::SinkSpawned);
    assert_eq!(s.command(), PlayCommand::Finish);
    assert_eq!(s.outcome(), Some(Ok(())));
}

#[test]
fn well_formed_source_plays_n_times() {
    let mut s = PlaySession::begin(2);
    assert_eq!(s.command(), PlayCommand::SpawnSink);
    s.step(PlayEvent::SinkSpawned);
    assert_eq!(s.command(), PlayCommand::Enqueue);
    s.step(PlayEvent::Enqueued);
    assert_eq!(s.command(), PlayCommand::Enqueue);
    s.step(PlayEvent::Enqueued);
    assert_eq!(s.command(), PlayCommand::Finish);
    assert_eq!(s.outcome(), Some(Ok(())));
}

#[test]
fn malformed_source_yields_decoder_error() {
    let mut s = PlaySession::begin(5);
    s.step(PlayEvent::SinkSpawned);
    s.step(PlayEvent::DecodeFailed);
    assert_eq!(s.command(), PlayCommand::Finish);
    assert_eq!(
        s.outcome(),
        Some(Err(OutputError::DecoderError(DecoderError)))
    );
}

#[test]
fn missing_device_yields_play_error() {
    let mut s = PlaySession::begin(1);
    s.step(PlayEvent::SinkFailed);
    assert_eq!(s.outcome(), Some(Err(OutputError::PlayError(PlayError))));
}

#[test]
fn outcome_is_pending_while_the_backend_owes_answers() {
    let mut s = PlaySession::begin(1);
    assert_eq!(s.outcome(), None);
    s.step(PlayEvent::SinkSpawned);
    assert_eq!(s.outcome(), None);
    s.step(PlayEvent::Enqueued);
    assert_eq!(s.outcome(), Some(Ok(())));
}

#[test]
fn silent_play_logs_exactly_the_errors() {
    assert!(!should_log(&Ok(())));
    assert!(should_log(&Err(OutputError::PlayError(PlayError))));
    assert!(should_log(&Err(OutputError::DecoderError(DecoderError))));
}

#[test]
fn device_label_uses_the_reported_name() {
    assert_eq!(
        device_label(Some(String::from("Speakers"))),
        String::from("Speakers")
    );
}

#[test]
fn device_label_falls_back_when_the_query_fails() {
    assert_eq!(device_label(None), String::from("Unknown device"));
}

#[test]
fn output_error_describes_itself() {
    let e = OutputError::DecoderError(DecoderError);
    assert_eq!(e.describe(), "OutputError");
}

#[test]
fn source_holds_its_bytes() {
    let src = Source {
        bytes: vec![82, 73, 70, 70],
    };
    assert_eq!(src.bytes, vec![82, 73, 70, 70]);
}
