use doubao_voice_input::jobs::{is_retryable_transcription_error, FileJob, JobCommand, JobEvent};
use doubao_voice_input::transcription::TranscriptionResult;

#[test]
fn retryable_errors() {
    assert!(is_retryable_transcription_error("Service Discovery Failure"));
    assert!(is_retryable_transcription_error("SESSIONFAILED: SERVICE DISCOVERY FAILURE"));
    assert!(is_retryable_transcription_error("code=50700000"));
    assert!(!is_retryable_transcription_error("Connection closed unexpectedly"));
    assert!(!is_retryable_transcription_error(""));
}

fn start_attempt(job: &mut FileJob, n: u64) {
    assert!(matches!(job.command(), JobCommand::CheckCancel));
    job.step(JobEvent::CancelFlag(false));
    assert!(matches!(job.command(), JobCommand::LoadCredentials));
    job.step(JobEvent::CredentialsLoaded(Ok(())));
    match job.command() {
        JobCommand::StartAttempt { attempt } => assert_eq!(attempt, n),
        other => panic!("unexpected {:?}", other),
    }
}

#[test]
fn transient_failures_retry_with_growing_pause_up_to_three_attempts() {
    let mut job = FileJob::new();
    start_attempt(&mut job, 1);
    job.step(JobEvent::Started(Err("service discovery failure".to_string())));
    assert!(matches!(job.command(), JobCommand::Sleep { ms: 700 }));
    job.step(JobEvent::Slept);
    start_attempt(&mut job, 2);
    job.step(JobEvent::Started(Ok(())));
    job.step(JobEvent::NextResult(Some(TranscriptionResult::failed(
        "SessionFailed: code=1, status=service discovery failure".to_string(),
    ))));
    assert!(matches!(job.command(), JobCommand::Sleep { ms: 1400 }));
    job.step(JobEvent::Slept);
    start_attempt(&mut job, 3);
    job.step(JobEvent::Started(Err("50700000".to_string())));
    match job.command() {
        JobCommand::Emit(r) => {
            assert_eq!(r.status.as_deref(), Some("failed"));
            assert_eq!(r.error.as_deref(), Some("Failed to start transcription attempt 3: 50700000"));
        }
        other => panic!("unexpected {:?}", other),
    }
    job.step(JobEvent::Emitted);
    match job.command() {
        JobCommand::Return(Err(m)) => assert_eq!(m, "Failed to start transcription attempt 3: 50700000"),
        other => panic!("unexpected {:?}", other),
    }
    assert!(job.is_done());
}

#[test]
fn other_failures_are_reported_at_once() {
    let mut job = FileJob::new();
    start_attempt(&mut job, 1);
    job.step(JobEvent::Started(Err("refused".to_string())));
    match job.command() {
        JobCommand::Emit(r) => {
            assert_eq!(r.error.as_deref(), Some("Failed to start transcription attempt 1: refused"))
        }
        other => panic!("unexpected {:?}", other),
    }
}

#[test]
fn updates_are_passed_on_until_a_status() {
    let mut job = FileJob::new();
    start_attempt(&mut job, 1);
    job.step(JobEvent::Started(Ok(())));
    job.step(JobEvent::NextResult(Some(TranscriptionResult::text("hi".to_string(), true))));
    match job.command() {
        JobCommand::Emit(r) => assert_eq!(r.text, "hi"),
        other => panic!("unexpected {:?}", other),
    }
    job.step(JobEvent::Emitted);
    assert!(matches!(job.command(), JobCommand::NextResult));
    job.step(JobEvent::NextResult(Some(TranscriptionResult::failed("bad audio".to_string()))));
    job.step(JobEvent::Emitted);
    assert!(matches!(job.command(), JobCommand::Return(Ok(()))));
}

#[test]
fn failed_update_without_error_text_is_not_retried() {
    let mut job = FileJob::new();
    start_attempt(&mut job, 1);
    job.step(JobEvent::Started(Ok(())));
    let mut r = TranscriptionResult::failed(String::new());
    r.error = None;
    job.step(JobEvent::NextResult(Some(r)));
    assert!(matches!(job.command(), JobCommand::Emit(_)));
}

#[test]
fn cancel_and_end_of_results() {
    let mut job = FileJob::new();
    job.step(JobEvent::CancelFlag(true));
    match job.command() {
        JobCommand::Emit(r) => assert_eq!(r.status.as_deref(), Some("cancelled")),
        other => panic!("unexpected {:?}", other),
    }
    job.step(JobEvent::Emitted);
    assert!(matches!(job.command(), JobCommand::Return(Ok(()))));

    let mut job = FileJob::new();
    start_attempt(&mut job, 1);
    job.step(JobEvent::Started(Ok(())));
    job.step(JobEvent::NextResult(None));
    assert!(matches!(job.command(), JobCommand::Return(Ok(()))));

    let mut job = FileJob::new();
    job.step(JobEvent::CancelFlag(false));
    job.step(JobEvent::CredentialsLoaded(Err("Failed to load credentials: offline".to_string())));
    match job.command() {
        JobCommand::Return(Err(m)) => assert_eq!(m, "Failed to load credentials: offline"),
        other => panic!("unexpected {:?}", other),
    }
}

#[test]
fn retryable_message_stays_retryable_when_wrapped() {
    let inner = "SessionFailed: code=50700000, status=Service Discovery Failure";
    assert!(is_retryable_transcription_error(inner));
    let wrapped = format!("Failed to start transcription attempt {}: {}", 2, inner);
    assert!(is_retryable_transcription_error(&wrapped));
    assert!(is_retryable_transcription_error(&format!("ΣΣ {} tail", inner)));
}
