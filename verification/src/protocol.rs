//! Messages of the recognition service's WebSocket protocol: the requests the
//! client sends, the replies it reads, and the framing of audio.

use vstd::prelude::*;
use crate::json::{
    JsonValue, Scalar, scalar_is, object_keys_are, member_value, flat_object_is, int_member,
    text_member, flag_member, value_member,
};
use crate::text::owned;

verus! {

/// Frame state of the first audio frame of a session.
pub const FRAME_FIRST: i32 = 1;

/// Frame state of an audio frame that is neither first nor last.
pub const FRAME_MIDDLE: i32 = 3;

/// Frame state of the last audio frame of a session.
pub const FRAME_LAST: i32 = 9;

/// Duration of one audio frame in milliseconds (320 samples at 16 kHz).
pub const FRAME_DURATION_MS: i64 = 20;

/// One request to the service, sent as a binary WebSocket message.
/// Fields that a request does not use stay empty (zero for `frame_state`);
/// `payload` is the request's JSON document, sent as its text (empty when
/// `None`).
#[derive(Debug)]
pub struct AsrRequest {
    pub token: String,
    pub service_name: String,
    pub method_name: String,
    pub payload: Option<JsonValue>,
    pub audio_data: Vec<u8>,
    pub request_id: String,
    pub frame_state: i32,
}

/// One reply of the service. `result` is the reply's result document when it
/// carries a non-empty, well-formed one.
#[derive(Debug)]
pub struct AsrResponse {
    pub message_type: String,
    pub status_code: i32,
    pub status_message: String,
    pub result: Option<JsonValue>,
}

/// What one read from the WebSocket gave.
#[derive(Debug)]
pub enum WsEvent {
    /// A binary message; `None` when it did not decode as a reply.
    Binary(Option<AsrResponse>),
    /// A text message (the service reports protocol errors as JSON text).
    Text(String),
    /// Any other message (ping, pong, frame, close).
    Other,
    /// The read failed with this error.
    ReadError(String),
    /// The connection has no more messages.
    Closed,
}

/// The service name every request carries.
pub open spec fn service_asr() -> Seq<char> {
    "ASR"@
}

/// A request with the given identity and method, carrying no audio.
pub open spec fn is_request_header(
    r: AsrRequest,
    method: Seq<char>,
    request_id: Seq<char>,
    token: Seq<char>,
) -> bool {
    &&& r.token@ == token
    &&& r.service_name@ == service_asr()
    &&& r.method_name@ == method
    &&& r.audio_data@.len() == 0
    &&& r.request_id@ == request_id
    &&& r.frame_state == 0
}

/// A request with the given identity and method and every other field empty.
pub open spec fn is_control_request(
    r: AsrRequest,
    method: Seq<char>,
    request_id: Seq<char>,
    token: Seq<char>,
) -> bool {
    is_request_header(r, method, request_id, token) && r.payload is None
}

/// The session configuration document of a device: Opus audio of one
/// channel at 16 kHz, punctuation on, speech rejection off, and the
/// client's extra settings naming the device.
pub open spec fn is_session_config(v: JsonValue, device_id: Seq<char>) -> bool {
    &&& object_keys_are(
        v,
        seq!["audio_info"@, "enable_punctuation"@, "enable_speech_rejection"@, "extra"@],
    )
    &&& flat_object_is(
        member_value(v, 0),
        seq![
            ("channel"@, Scalar::Int(1)),
            ("format"@, Scalar::Text("speech_opus"@)),
            ("sample_rate"@, Scalar::Int(16000)),
        ],
    )
    &&& scalar_is(member_value(v, 1), Scalar::Flag(true))
    &&& scalar_is(member_value(v, 2), Scalar::Flag(false))
    &&& flat_object_is(
        member_value(v, 3),
        seq![
            ("app_name"@, Scalar::Text("com.android.chrome"@)),
            ("cell_compress_rate"@, Scalar::Int(8)),
            ("did"@, Scalar::Text(device_id)),
            ("enable_asr_threepass"@, Scalar::Flag(true)),
            ("enable_asr_twopass"@, Scalar::Flag(true)),
            ("input_mode"@, Scalar::Text("tool"@)),
        ],
    )
}

/// The metadata document of an audio frame: its timestamp and an empty
/// `extra` object.
pub open spec fn is_frame_metadata(v: JsonValue, timestamp_ms: i64) -> bool {
    &&& object_keys_are(v, seq!["timestamp_ms"@, "extra"@])
    &&& scalar_is(member_value(v, 0), Scalar::Int(timestamp_ms))
    &&& flat_object_is(member_value(v, 1), Seq::empty())
}

/// The session-opening request: the task's identity with the device's
/// session configuration.
pub open spec fn is_start_session_request(
    r: AsrRequest,
    request_id: Seq<char>,
    token: Seq<char>,
    device_id: Seq<char>,
) -> bool {
    &&& is_request_header(r, "StartSession"@, request_id, token)
    &&& r.payload matches Some(doc) && is_session_config(doc, device_id)
}

/// The request carrying one audio frame: no token, the frame's audio and
/// state, and its metadata document.
pub open spec fn is_audio_request(
    r: AsrRequest,
    request_id: Seq<char>,
    audio: Seq<u8>,
    frame_state: i32,
    timestamp_ms: i64,
) -> bool {
    &&& r.token@ == Seq::<char>::empty()
    &&& r.service_name@ == service_asr()
    &&& r.method_name@ == "TaskRequest"@
    &&& r.audio_data@ == audio
    &&& r.request_id@ == request_id
    &&& r.frame_state == frame_state
    &&& r.payload matches Some(doc) && is_frame_metadata(doc, timestamp_ms)
}

/// The session configuration document of a device (see
/// [`is_session_config`]).
pub fn session_config(device_id: &str) -> (r: JsonValue)
    ensures
        is_session_config(r, device_id@),
{
    let audio_info = JsonValue::Object(
        vec![
            int_member("channel", 1),
            text_member("format", "speech_opus"),
            int_member("sample_rate", 16000),
        ],
    );
    let extra = JsonValue::Object(
        vec![
            text_member("app_name", "com.android.chrome"),
            int_member("cell_compress_rate", 8),
            text_member("did", device_id),
            flag_member("enable_asr_threepass", true),
            flag_member("enable_asr_twopass", true),
            text_member("input_mode", "tool"),
        ],
    );
    let r = JsonValue::Object(
        vec![
            value_member("audio_info", audio_info),
            flag_member("enable_punctuation", true),
            flag_member("enable_speech_rejection", false),
            value_member("extra", extra),
        ],
    );
    r
}

/// The metadata document of an audio frame (see [`is_frame_metadata`]).
pub fn frame_metadata(timestamp_ms: i64) -> (r: JsonValue)
    ensures
        is_frame_metadata(r, timestamp_ms),
{
    let extra = JsonValue::Object(Vec::new());
    JsonValue::Object(vec![int_member("timestamp_ms", timestamp_ms), value_member("extra", extra)])
}

/// The frame state of frame `index` of a file of `count` frames: the first
/// frame is FIRST, the last (when there are two or more) is LAST, the others
/// MIDDLE.
pub open spec fn file_frame_state(index: int, count: int) -> i32 {
    if index == 0 {
        FRAME_FIRST
    } else if index == count - 1 {
        FRAME_LAST
    } else {
        FRAME_MIDDLE
    }
}

/// The frame state of frame `index` of a live stream: the first frame is
/// FIRST, every later one MIDDLE (the stream ends with an empty LAST frame).
pub open spec fn stream_frame_state(index: int) -> i32 {
    if index == 0 {
        FRAME_FIRST
    } else {
        FRAME_MIDDLE
    }
}

/// The timestamp of frame `index` of a session that started at `start_ms`.
pub open spec fn frame_timestamp(start_ms: int, index: int) -> int {
    start_ms + FRAME_DURATION_MS * index
}

/// The frame state of frame `index` of a file of `count` frames.
pub fn file_frame_state_of(index: u64, count: u64) -> (r: i32)
    ensures
        r == file_frame_state(index as int, count as int),
{
    if index == 0 {
        FRAME_FIRST
    } else if count > 0 && index == count - 1 {
        FRAME_LAST
    } else {
        FRAME_MIDDLE
    }
}

/// The frame state of frame `index` of a live stream.
pub fn stream_frame_state_of(index: u64) -> (r: i32)
    ensures
        r == stream_frame_state(index as int),
{
    if index == 0 {
        FRAME_FIRST
    } else {
        FRAME_MIDDLE
    }
}

/// The timestamp of frame `index` of a session that started at `start_ms`.
pub fn frame_timestamp_of(start_ms: i64, index: u64) -> (r: i64)
    requires
        frame_timestamp(start_ms as int, index as int) <= i64::MAX,
        0 <= start_ms,
    ensures
        r == frame_timestamp(start_ms as int, index as int),
{
    start_ms + FRAME_DURATION_MS * (index as i64)
}

impl AsrRequest {
    /// The request that opens a recognition task.
    pub fn start_task(request_id: &str, token: &str) -> (r: AsrRequest)
        ensures
            is_control_request(r, "StartTask"@, request_id@, token@),
    {
        AsrRequest {
            token: owned(token),
            service_name: owned("ASR"),
            method_name: owned("StartTask"),
            payload: None,
            audio_data: Vec::new(),
            request_id: owned(request_id),
            frame_state: 0,
        }
    }

    /// The request that opens a recognition session with the device's
    /// session configuration.
    pub fn start_session(request_id: &str, token: &str, device_id: &str) -> (r: AsrRequest)
        ensures
            is_start_session_request(r, request_id@, token@, device_id@),
    {
        AsrRequest {
            token: owned(token),
            service_name: owned("ASR"),
            method_name: owned("StartSession"),
            payload: Some(session_config(device_id)),
            audio_data: Vec::new(),
            request_id: owned(request_id),
            frame_state: 0,
        }
    }

    /// The request that closes the recognition session.
    pub fn finish_session(request_id: &str, token: &str) -> (r: AsrRequest)
        ensures
            is_control_request(r, "FinishSession"@, request_id@, token@),
    {
        AsrRequest {
            token: owned(token),
            service_name: owned("ASR"),
            method_name: owned("FinishSession"),
            payload: None,
            audio_data: Vec::new(),
            request_id: owned(request_id),
            frame_state: 0,
        }
    }

    /// The request that carries one audio frame with its frame state and
    /// timestamp; it carries no token.
    pub fn task_request(request_id: &str, audio: &[u8], frame_state: i32, timestamp_ms: i64) -> (r:
        AsrRequest)
        ensures
            is_audio_request(r, request_id@, audio@, frame_state, timestamp_ms),
    {
        let mut data: Vec<u8> = Vec::new();
        data.extend_from_slice(audio);
        assert(data@ =~= audio@);
        AsrRequest {
            token: String::new(),
            service_name: owned("ASR"),
            method_name: owned("TaskRequest"),
            payload: Some(frame_metadata(timestamp_ms)),
            audio_data: data,
            request_id: owned(request_id),
            frame_state,
        }
    }
}

} // verus!
