use meeting_transcriber::retry::{RetrySchedule, TranscriptionError, MAX_TRANSCRIPTION_RETRIES};
use meeting_transcriber::session::{
    RecordingSession, RecordingError, StopDecision, MIN_RECORDING_DURATION_MS,
};

#[test]
fn second_start_without_stop_is_rejected() {
    let mut session = RecordingSession::new();
    assert!(session.start_recording(100).is_ok());
    assert!(session.is_recording());
    let second = session.start_recording(200);
    assert_eq!(second, Err(RecordingError::AlreadyActive));
    assert!(session.is_recording());
}

#[test]
fn start_resets_capture_buffers() {
    let mut session = RecordingSession::new();
    assert!(session.start_recording(0).is_ok());
    session.append_mic(&vec![1, 2, 3]);
    session.append_system(&vec![4]);
    assert_eq!(session.mic_buffer, vec![1, 2, 3]);
    assert_eq!(session.system_buffer, vec![4]);
    let decision = session.begin_stop(MIN_RECORDING_DURATION_MS);
    assert!(matches!(decision, StopDecision::Teardown { .. }));
    session.finish_stop();
    assert!(session.start_recording(9000).is_ok());
    assert!(session.mic_buffer.is_empty());
    assert!(session.system_buffer.is_empty());
}

#[test]
fn only_first_of_two_stops_tears_down() {
    let mut session = RecordingSession::new();
    assert!(session.start_recording(0).is_ok());
    session.append_mic(&vec![5, 6]);
    let first = session.begin_stop(MIN_RECORDING_DURATION_MS + 1);
    assert_eq!(first, StopDecision::Teardown { wait_ms: 0 });
    // A stop that arrives while the first is tearing down only waits.
    let second = session.begin_stop(MIN_RECORDING_DURATION_MS + 2);
    assert_eq!(second, StopDecision::AwaitCompletion);
    assert_eq!(session.mic_buffer, vec![5, 6]);
    session.finish_stop();
    assert!(!session.is_recording());
    assert!(session.mic_buffer.is_empty());
    assert!(session.system_buffer.is_empty());
}

#[test]
fn stop_of_idle_session_succeeds_without_teardown() {
    let mut session = RecordingSession::new();
    let decision = session.begin_stop(10);
    assert_eq!(decision, StopDecision::NotActive);
    assert!(!session.is_recording());
}

#[test]
fn early_stop_waits_out_the_minimum_duration() {
    let mut session = RecordingSession::new();
    assert!(session.start_recording(1000).is_ok());
    let decision = session.begin_stop(1500);
    assert_eq!(decision, StopDecision::Teardown { wait_ms: MIN_RECORDING_DURATION_MS - 500 });
}

#[test]
fn always_failing_service_gets_exactly_four_attempts() {
    let mut schedule = RetrySchedule::new();
    let mut attempts: u32 = 0;
    let mut delays: Vec<u64> = Vec::new();
    while let Some(delay) = schedule.plan_next_attempt() {
        delays.push(delay);
        attempts += 1;
        schedule.record_failure(format!("refused ({attempts})"));
    }
    assert_eq!(attempts, 1 + MAX_TRANSCRIPTION_RETRIES);
    assert_eq!(delays, vec![0, 200, 400, 800]);
    // The second attempt starts no sooner than 200ms after the first failed.
    assert!(delays[1] >= 200);
    let TranscriptionError::TranscriptionFailed { last_error } = schedule.into_failure();
    assert_eq!(last_error, "refused (4)");
}

#[test]
fn success_before_exhaustion_needs_no_further_delay() {
    let mut schedule = RetrySchedule::new();
    assert_eq!(schedule.plan_next_attempt(), Some(0));
    schedule.record_failure("timed out".to_string());
    assert_eq!(schedule.plan_next_attempt(), Some(200));
    // The second attempt succeeds: the caller simply stops consulting the
    // schedule; nothing forces further attempts.
    assert_eq!(schedule.attempts_made, 1);
}
