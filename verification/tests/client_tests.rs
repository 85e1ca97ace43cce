use doubao_voice_input::client::{handshake_headers, AsrClient};
use doubao_voice_input::credentials::Credentials;
use doubao_voice_input::json::JsonValue;
use doubao_voice_input::protocol::{
    file_frame_state_of, frame_metadata, frame_timestamp_of, session_config,
    stream_frame_state_of, AsrRequest,
};
use doubao_voice_input::session::Command;
use doubao_voice_input::capture::MicCapture;
use std::sync::atomic::{AtomicBool, Ordering};
use std::sync::Arc;

fn obj(entries: Vec<(&str, JsonValue)>) -> JsonValue {
    JsonValue::Object(entries.into_iter().map(|(k, v)| (k.to_string(), v)).collect())
}

fn creds() -> Credentials {
    Credentials {
        device_id: "1923476667833563".to_string(),
        install_id: "2".to_string(),
        cdid: "c".to_string(),
        openudid: "o".to_string(),
        clientudid: "u".to_string(),
        token: "RTIHIRzbwS".to_string(),
    }
}

#[test]
fn websocket_url_and_headers() {
    let c = AsrClient::new(creds());
    assert_eq!(
        c.websocket_url(),
        "wss://frontier-audio-ime-ws.doubao.com/ocean/api/v1/ws?aid=401734&device_id=1923476667833563"
    );
    let h = handshake_headers();
    assert_eq!(h.len(), 3);
    assert_eq!(h[1], ("proto-version".to_string(), "v2".to_string()));
    assert_eq!(h[2], ("x-custom-keepalive".to_string(), "true".to_string()));
    assert!(h[0].1.starts_with("com.bytedance.android.doubaoime/100102018"));
    assert_eq!(c.credentials_ref().token, "RTIHIRzbwS");
}

#[test]
fn sessions_carry_one_fresh_request_id() {
    let c = AsrClient::new(creds());
    let s = c.file_session(vec![vec![1], vec![2]]);
    let r = match s.command() {
        Command::Send(r) => r,
        other => panic!("expected a request, got {:?}", other),
    };
    assert_eq!(r.token, "RTIHIRzbwS");
    assert_eq!(r.service_name, "ASR");
    assert_eq!(r.method_name, "StartTask");
    assert_eq!(r.request_id.len(), 36);
    assert!(r.payload.is_none() && r.audio_data.is_empty() && r.frame_state == 0);
    let t = c.stream_session();
    let r2 = match t.command() {
        Command::Send(r) => r,
        other => panic!("expected a request, got {:?}", other),
    };
    assert_ne!(r.request_id, r2.request_id);
    let id = AsrClient::new_request_id();
    assert_eq!(id.len(), 36);
}

#[test]
fn control_requests() {
    let r = AsrRequest::start_task("req-1", "tok");
    assert_eq!((r.token.as_str(), r.method_name.as_str()), ("tok", "StartTask"));
    assert!(r.payload.is_none());
    let r = AsrRequest::finish_session("req-1", "tok");
    assert_eq!((r.request_id.as_str(), r.method_name.as_str()), ("req-1", "FinishSession"));
    assert!(r.payload.is_none() && r.audio_data.is_empty() && r.frame_state == 0);
}

#[test]
fn start_session_carries_the_session_configuration() {
    let r = AsrRequest::start_session("r", "T", "7");
    assert_eq!(r.token, "T");
    assert_eq!(r.service_name, "ASR");
    assert_eq!(r.method_name, "StartSession");
    assert_eq!(r.request_id, "r");
    let expected = obj(vec![
        (
            "audio_info",
            obj(vec![
                ("channel", JsonValue::Number(Some(1))),
                ("format", JsonValue::Str("speech_opus".to_string())),
                ("sample_rate", JsonValue::Number(Some(16000))),
            ]),
        ),
        ("enable_punctuation", JsonValue::Bool(true)),
        ("enable_speech_rejection", JsonValue::Bool(false)),
        (
            "extra",
            obj(vec![
                ("app_name", JsonValue::Str("com.android.chrome".to_string())),
                ("cell_compress_rate", JsonValue::Number(Some(8))),
                ("did", JsonValue::Str("7".to_string())),
                ("enable_asr_threepass", JsonValue::Bool(true)),
                ("enable_asr_twopass", JsonValue::Bool(true)),
                ("input_mode", JsonValue::Str("tool".to_string())),
            ]),
        ),
    ]);
    assert_eq!(format!("{:?}", r.payload), format!("{:?}", Some(expected)));
    assert_eq!(format!("{:?}", session_config("7")), format!("{:?}", r.payload.unwrap()));
}

#[test]
fn audio_request_and_framing() {
    let r = AsrRequest::task_request("r", &[7], 9, 1000);
    assert_eq!(r.method_name, "TaskRequest");
    assert_eq!(r.service_name, "ASR");
    assert_eq!(r.request_id, "r");
    assert_eq!(r.audio_data, vec![7]);
    assert_eq!(r.frame_state, 9);
    assert!(r.token.is_empty());
    let expected = obj(vec![
        ("timestamp_ms", JsonValue::Number(Some(1000))),
        ("extra", JsonValue::Object(vec![])),
    ]);
    assert_eq!(format!("{:?}", r.payload), format!("{:?}", Some(expected)));
    assert_eq!(format!("{:?}", frame_metadata(-5)), format!("{:?}", obj(vec![
        ("timestamp_ms", JsonValue::Number(Some(-5))),
        ("extra", JsonValue::Object(vec![])),
    ])));
    assert_eq!(file_frame_state_of(0, 550), 1);
    assert_eq!(file_frame_state_of(1, 550), 3);
    assert_eq!(file_frame_state_of(549, 550), 9);
    assert_eq!(file_frame_state_of(0, 1), 1);
    assert_eq!(stream_frame_state_of(0), 1);
    assert_eq!(stream_frame_state_of(7), 3);
    assert_eq!(frame_timestamp_of(1_000, 3), 1_060);
}

#[test]
fn mic_capture_stop_raises_the_flag() {
    let flag = Arc::new(AtomicBool::new(false));
    let mic = MicCapture::new(48000, 2, Arc::clone(&flag));
    assert_eq!(mic.sample_rate, 48000);
    assert_eq!(mic.channels, 2);
    mic.stop();
    assert!(flag.load(Ordering::Relaxed));
}
