use doubao_voice_input::json::JsonValue;
use doubao_voice_input::protocol::{AsrRequest, AsrResponse, WsEvent};
use doubao_voice_input::session::{AsrSession, Command, Event, Phase};
use doubao_voice_input::transcription::TranscriptionResult;

fn reply(kind: &str) -> Event {
    reply_with(kind, None, 0, "")
}

fn reply_with(kind: &str, result: Option<JsonValue>, code: i32, status: &str) -> Event {
    Event::Received {
        message: WsEvent::Binary(Some(AsrResponse {
            message_type: kind.to_string(),
            status_code: code,
            status_message: status.to_string(),
            result,
        })),
        now_ns: 0,
    }
}

fn results_doc(items: Vec<(&str, Option<bool>)>) -> JsonValue {
    JsonValue::Object(vec![(
        "results".to_string(),
        JsonValue::Array(
            items
                .into_iter()
                .map(|(t, interim)| {
                    let mut e = vec![("text".to_string(), JsonValue::Str(t.to_string()))];
                    if let Some(b) = interim {
                        e.push(("is_interim".to_string(), JsonValue::Bool(b)));
                    }
                    JsonValue::Object(e)
                })
                .collect(),
        ),
    )])
}

fn ok() -> Event {
    Event::Sent(Ok(()))
}

fn file(count: usize) -> AsrSession {
    let frames: Vec<Vec<u8>> = (0..count).map(|i| vec![i as u8, 0xAA]).collect();
    AsrSession::new_file("req-7".to_string(), "tok".to_string(), "dev-1".to_string(), frames)
}

fn stream() -> AsrSession {
    AsrSession::new_stream("req-7".to_string(), "tok".to_string(), "dev-1".to_string())
}

fn expect_emit(s: &AsrSession) -> TranscriptionResult {
    match s.command() {
        Command::Emit(r) => r,
        other => panic!("expected an update, got {:?}", other),
    }
}

fn expect_send(s: &AsrSession) -> AsrRequest {
    match s.command() {
        Command::Send(r) => r,
        other => panic!("expected a request, got {:?}", other),
    }
}

fn member<'a>(v: &'a JsonValue, key: &str) -> &'a JsonValue {
    v.get(key).unwrap()
}

fn frame_timestamp(r: &AsrRequest) -> i64 {
    member(r.payload.as_ref().unwrap(), "timestamp_ms").as_i64().unwrap()
}

fn handshake(s: &mut AsrSession, clock_ms: i64) {
    let r = expect_send(s);
    assert_eq!(r.method_name, "StartTask");
    assert_eq!(r.request_id, "req-7");
    assert_eq!(r.token, "tok");
    assert!(r.payload.is_none());
    s.step(ok());
    assert!(matches!(s.command(), Command::Read));
    s.step(reply("TaskStarted"));
    let r = expect_send(s);
    assert_eq!(r.method_name, "StartSession");
    assert_eq!(r.request_id, "req-7");
    assert_eq!(r.token, "tok");
    let config = r.payload.as_ref().unwrap();
    assert_eq!(member(member(config, "extra"), "did").as_str(), Some("dev-1"));
    s.step(ok());
    assert!(matches!(s.command(), Command::Read));
    s.step(reply("SessionStarted"));
    assert!(matches!(s.command(), Command::ReadClock));
    s.step(Event::Clock(clock_ms));
}

#[test]
fn file_session_full_run() {
    let mut s = file(3);
    handshake(&mut s, 1000);
    let mut sent = Vec::new();
    for _ in 0..3 {
        assert!(matches!(s.command(), Command::CheckCancel));
        s.step(Event::CancelFlag(false));
        let r = expect_send(&s);
        assert_eq!(r.method_name, "TaskRequest");
        assert_eq!(r.request_id, "req-7");
        assert_eq!(r.token, "");
        sent.push((r.audio_data.clone(), r.frame_state, frame_timestamp(&r)));
        s.step(ok());
    }
    assert_eq!(
        sent,
        vec![(vec![0, 0xAA], 1, 1000), (vec![1, 0xAA], 3, 1020), (vec![2, 0xAA], 9, 1040)]
    );
    assert_eq!(expect_send(&s).method_name, "FinishSession");
    s.step(ok());
    assert!(matches!(s.command(), Command::Poll));
    s.step(Event::Polled { cancelled: false, now_ns: 5 });
    assert!(matches!(s.command(), Command::ReadWithTimeout));
    s.step(Event::ReadTimedOut);
    assert!(matches!(s.command(), Command::Poll));
    s.step(Event::Polled { cancelled: false, now_ns: 6 });
    s.step(reply_with(
        "TaskRequest",
        Some(results_doc(vec![("你好", Some(true)), ("hello", Some(false)), ("x", None)])),
        0,
        "",
    ));
    let a = expect_emit(&s);
    assert_eq!(a.text, "你好");
    assert!(!a.is_final);
    assert!(a.status.is_none());
    s.step(Event::Delivered(true));
    let b = expect_emit(&s);
    assert_eq!(b.text, "hello");
    assert!(b.is_final);
    s.step(Event::Delivered(true));
    let c = expect_emit(&s);
    assert_eq!(c.text, "x");
    assert!(!c.is_final);
    s.step(Event::Delivered(true));
    assert!(matches!(s.command(), Command::Poll));
    s.step(Event::Polled { cancelled: false, now_ns: 7 });
    s.step(reply("SessionFinished"));
    let done = expect_emit(&s);
    assert_eq!(done.status.as_deref(), Some("completed"));
    assert!(done.is_final);
    s.step(Event::Delivered(true));
    assert!(s.is_done());
    assert!(matches!(s.command(), Command::Finished));
    s.step(Event::Delivered(true));
    assert!(s.is_done());
}

#[test]
fn file_session_single_frame_is_first() {
    let mut s = file(1);
    handshake(&mut s, 0);
    s.step(Event::CancelFlag(false));
    let r = expect_send(&s);
    assert_eq!((r.audio_data, r.frame_state), (vec![0, 0xAA], 1));
}

#[test]
fn file_session_without_frames_finishes_at_once() {
    let mut s = file(0);
    handshake(&mut s, 0);
    assert_eq!(expect_send(&s).method_name, "FinishSession");
}

#[test]
fn unexpected_handshake_reply_fails() {
    let mut s = stream();
    s.step(ok());
    s.step(reply("TaskFailed"));
    let r = expect_emit(&s);
    assert_eq!(r.status.as_deref(), Some("failed"));
    assert_eq!(r.error.as_deref(), Some("Expected TaskStarted, got TaskFailed"));
    s.step(Event::Delivered(false));
    assert!(s.is_done());
}

#[test]
fn missing_handshake_reply_fails() {
    let mut s = stream();
    s.step(ok());
    s.step(reply("TaskStarted"));
    s.step(ok());
    s.step(Event::Received { message: WsEvent::Closed, now_ns: 0 });
    assert_eq!(expect_emit(&s).error.as_deref(), Some("Failed to receive SessionStarted"));
}

#[test]
fn undecodable_handshake_reply_is_passed_over() {
    let mut s = stream();
    s.step(ok());
    s.step(Event::Received { message: WsEvent::Binary(None), now_ns: 0 });
    assert!(expect_send(&s).method_name == "StartSession");
}

#[test]
fn send_failures_name_the_request() {
    let mut s = stream();
    s.step(Event::Sent(Err("broken pipe".to_string())));
    assert_eq!(expect_emit(&s).error.as_deref(), Some("StartTask failed: broken pipe"));

    let mut s = file(2);
    handshake(&mut s, 0);
    s.step(Event::CancelFlag(false));
    s.step(ok());
    s.step(Event::CancelFlag(false));
    s.step(Event::Sent(Err("reset".to_string())));
    assert_eq!(expect_emit(&s).error.as_deref(), Some("Send audio frame 1 failed: reset"));
}

#[test]
fn cancel_before_a_frame_reports_cancelled_only() {
    let mut s = file(2);
    handshake(&mut s, 0);
    s.step(Event::CancelFlag(true));
    assert_eq!(expect_emit(&s).status.as_deref(), Some("cancelled"));
    s.step(Event::Delivered(true));
    assert!(s.is_done());
}

#[test]
fn cancel_while_waiting_reports_cancelled_then_completed() {
    let mut s = file(0);
    handshake(&mut s, 0);
    s.step(ok());
    s.step(Event::Polled { cancelled: true, now_ns: 0 });
    assert_eq!(expect_emit(&s).status.as_deref(), Some("cancelled"));
    s.step(Event::Delivered(true));
    assert_eq!(expect_emit(&s).status.as_deref(), Some("completed"));
    s.step(Event::Delivered(true));
    assert!(s.is_done());
}

#[test]
fn idle_for_more_than_thirty_seconds_times_out() {
    let mut s = file(0);
    handshake(&mut s, 0);
    s.step(ok());
    s.step(Event::Polled { cancelled: false, now_ns: 1_000 });
    s.step(Event::ReadTimedOut);
    s.step(Event::Polled { cancelled: false, now_ns: 1_000 + 30_000_000_000 });
    assert!(matches!(s.command(), Command::ReadWithTimeout));
    s.step(Event::ReadTimedOut);
    s.step(Event::Polled { cancelled: false, now_ns: 1_001 + 30_000_000_000 });
    assert_eq!(
        expect_emit(&s).error.as_deref(),
        Some("Timed out waiting for backend activity")
    );
}

#[test]
fn replies_reset_the_idle_clock() {
    let mut s = file(0);
    handshake(&mut s, 0);
    s.step(ok());
    s.step(Event::Polled { cancelled: false, now_ns: 0 });
    s.step(Event::Received { message: WsEvent::Binary(None), now_ns: 20_000_000_000 });
    s.step(Event::Polled { cancelled: false, now_ns: 40_000_000_000 });
    assert!(matches!(s.command(), Command::ReadWithTimeout));
    s.step(Event::Received { message: WsEvent::Other, now_ns: 45_000_000_000 });
    s.step(Event::Polled { cancelled: false, now_ns: 50_000_000_001 });
    assert!(matches!(s.command(), Command::Emit(_)));
}

#[test]
fn service_failure_reply_is_reported() {
    let mut s = file(0);
    handshake(&mut s, 0);
    s.step(ok());
    s.step(Event::Polled { cancelled: false, now_ns: 0 });
    s.step(reply_with("SessionFailed", None, -45000001, "service discovery failure"));
    let r = expect_emit(&s);
    assert_eq!(
        r.error.as_deref(),
        Some("SessionFailed: code=-45000001, status=service discovery failure")
    );
    s.step(Event::Delivered(true));
    assert!(s.is_done());
}

#[test]
fn file_wait_errors() {
    for (message, text) in [
        (WsEvent::Text("{\"err\":1}".to_string()), "Server returned JSON error: {\"err\":1}"),
        (WsEvent::ReadError("eof".to_string()), "Read failed: eof"),
        (WsEvent::Closed, "Connection closed unexpectedly"),
    ] {
        let mut s = file(0);
        handshake(&mut s, 0);
        s.step(ok());
        s.step(Event::Polled { cancelled: false, now_ns: 0 });
        s.step(Event::Received { message, now_ns: 1 });
        assert_eq!(expect_emit(&s).error.as_deref(), Some(text));
    }
}

#[test]
fn undelivered_text_ends_silently() {
    let mut s = stream();
    handshake(&mut s, 0);
    s.step(reply_with("TaskRequest", Some(results_doc(vec![("a", None)])), 0, ""));
    s.step(Event::Delivered(false));
    assert!(s.is_done());
}

#[test]
fn stream_session_run() {
    let mut s = stream();
    handshake(&mut s, 500);
    assert!(matches!(s.command(), Command::Select { audio_open: true }));
    s.step(Event::Audio(Some(vec![5, 6])));
    let r = expect_send(&s);
    assert_eq!((r.audio_data.clone(), r.frame_state, frame_timestamp(&r)), (vec![5, 6], 1, 500));
    assert_eq!(r.request_id, "req-7");
    s.step(ok());
    s.step(Event::Audio(Some(vec![7])));
    let r = expect_send(&s);
    assert_eq!((r.audio_data.clone(), r.frame_state, frame_timestamp(&r)), (vec![7], 3, 520));
    s.step(ok());
    s.step(Event::Audio(None));
    let r = expect_send(&s);
    assert_eq!((r.audio_data.clone(), r.frame_state, frame_timestamp(&r)), (vec![], 9, 540));
    s.step(ok());
    assert_eq!(expect_send(&s).method_name, "FinishSession");
    s.step(ok());
    assert!(matches!(s.command(), Command::Select { audio_open: false }));
    assert_eq!(s.phase(), Phase::Select);
    s.step(Event::Audio(Some(vec![5, 6])));
    assert!(matches!(s.command(), Command::Select { audio_open: false }));
    s.step(reply("SessionFinished"));
    assert_eq!(expect_emit(&s).status.as_deref(), Some("completed"));
}

#[test]
fn stream_errors() {
    let mut s = stream();
    handshake(&mut s, 0);
    s.step(Event::Received { message: WsEvent::ReadError("x".to_string()), now_ns: 0 });
    assert_eq!(expect_emit(&s).error.as_deref(), Some("WebSocket closed unexpectedly"));

    let mut s = stream();
    handshake(&mut s, 0);
    s.step(Event::Audio(None));
    s.step(Event::Sent(Err("gone".to_string())));
    assert_eq!(expect_emit(&s).error.as_deref(), Some("Send final audio frame failed: gone"));

    let mut s = stream();
    handshake(&mut s, 0);
    s.step(Event::Audio(None));
    s.step(ok());
    s.step(Event::Sent(Err("gone".to_string())));
    assert_eq!(expect_emit(&s).error.as_deref(), Some("FinishSession failed: gone"));
}

#[test]
fn timestamp_limit_is_checked() {
    let mut s = stream();
    handshake(&mut s, i64::MAX);
    assert!(s.timestamp_fits());
    let mut s = stream();
    handshake(&mut s, i64::MAX - 19);
    s.step(Event::Audio(Some(vec![5, 6])));
    s.step(ok());
    assert!(!s.timestamp_fits());
}
