//! The recognition session as a state machine.
//!
//! A session runs over one WebSocket connection: it opens a task, opens a
//! session, sends audio frames, closes the session and reads recognition
//! replies until the service finishes, fails, or the connection ends. Each
//! step of the machine names one piece of outside work (a [`Command`]: send a
//! request, read a message, report an update, ...) and takes the outcome of
//! that work back as an [`Event`]. The caller performs the work; every
//! decision is made here.
//!
//! Two kinds of session exist: a file session sends a fixed number of
//! pre-encoded frames and may be cancelled; a live session sends frames as
//! they arrive from a capture channel and reads replies at the same time.
//!
//! A session holds its task's request identifier, the device's token and
//! identifier, and the audio it sends: every request it asks to send is
//! built here and carries that one identifier. Frame timestamps count from
//! the wall-clock time read once the service has confirmed the session.

use vstd::prelude::*;
use crate::protocol::{
    AsrRequest, AsrResponse, WsEvent, FRAME_LAST, file_frame_state, stream_frame_state,
    frame_timestamp, file_frame_state_of, stream_frame_state_of, frame_timestamp_of,
    is_control_request, is_start_session_request, is_audio_request,
};
use crate::text::{owned, push_text, push_decimal_u64, push_decimal_i64, decimal_digits, decimal_text};
use crate::transcription::{
    TranscriptionResult, ResultView, views_of, document_results, results_from_document,
    completed_view, failed_view, cancelled_view,
};

verus! {

/// How long a file session waits without any reply before it gives up.
pub const IDLE_LIMIT_NS: u64 = 30_000_000_000;

/// The kind of a session.
#[derive(Debug, Clone, Copy, PartialEq, Eq, Structural)]
pub enum SessionKind {
    /// Sends `frame_count` pre-encoded frames.
    File { frame_count: u64 },
    /// Sends frames as a capture channel delivers them.
    Stream,
}

/// Where a session stands.
#[derive(Debug, Clone, Copy, PartialEq, Eq, Structural)]
pub enum Phase {
    /// The task-opening request is to be sent.
    StartTask,
    /// Waiting for the reply that the task started.
    AwaitTaskStarted,
    /// The session-opening request is to be sent.
    StartSession,
    /// Waiting for the reply that the session started.
    AwaitSessionStarted,
    /// The wall clock is to be read: frame timestamps count from it.
    ReadClock,
    /// File session: the cancel flag is to be read before the next frame.
    FrameCheck,
    /// File session: the next frame is to be sent.
    SendFrame,
    /// File session: the session-closing request is to be sent.
    Finish,
    /// File session: the cancel flag and the clock are to be read.
    Poll,
    /// File session: a reply is to be read, giving up after a short wait.
    Wait,
    /// Live session: wait for audio (while the channel is open) or a reply.
    Select,
    /// Live session: the audio chunk just received is to be sent.
    SendChunk,
    /// Live session: the empty last frame is to be sent.
    SendLast,
    /// Live session: the session-closing request is to be sent.
    StreamFinish,
    /// Updates are to be reported, one at a time.
    Deliver,
    /// The session is over.
    Done,
}

/// The outside work a session asks for next.
#[derive(Debug)]
pub enum Command {
    /// Send this request.
    Send(AsrRequest),
    /// Read the next message, waiting as long as it takes.
    Read,
    /// Report the wall-clock time in milliseconds since the Unix epoch.
    ReadClock,
    /// Report whether cancellation was requested.
    CheckCancel,
    /// Report whether cancellation was requested, and the monotonic clock.
    Poll,
    /// Read the next message, giving up after a short wait.
    ReadWithTimeout,
    /// Wait for whichever comes first: audio (only when `audio_open`) or a message.
    Select { audio_open: bool },
    /// Report this update to the user interface.
    Emit(TranscriptionResult),
    /// Nothing more to do.
    Finished,
}

/// The outcome of the work a [`Command`] asked for.
#[derive(Debug)]
pub enum Event {
    /// A request was sent, or failed to be sent with this error.
    Sent(Result<(), String>),
    /// A read gave this message at monotonic time `now_ns`.
    Received { message: WsEvent, now_ns: u64 },
    /// A read with timeout gave up.
    ReadTimedOut,
    /// The wall-clock time, in milliseconds since the Unix epoch.
    Clock(i64),
    /// Whether cancellation was requested.
    CancelFlag(bool),
    /// Whether cancellation was requested, and the monotonic time.
    Polled { cancelled: bool, now_ns: u64 },
    /// The capture channel delivered this chunk (`Some`) or closed (`None`).
    Audio(Option<Vec<u8>>),
    /// An update was reported (`true`) or its receiver is gone (`false`).
    Delivered(bool),
}

/// The state of a session.
pub struct SessionView {
    pub kind: SessionKind,
    pub request_id: Seq<char>,
    pub token: Seq<char>,
    pub device_id: Seq<char>,
    /// A file session's frames.
    pub frames: Seq<Vec<u8>>,
    /// The audio chunk a live session received last.
    pub chunk: Seq<u8>,
    pub phase: Phase,
    /// The wall-clock time frame timestamps count from.
    pub start_ms: i64,
    pub next_frame: u64,
    pub audio_done: bool,
    pub last_activity: Option<u64>,
    pub pending: Seq<ResultView>,
    pub delivered: nat,
    pub resume: bool,
}

// ---------------------------------------------------------------------------
// Failure texts

pub open spec fn start_task_failed(e: Seq<char>) -> Seq<char> {
    "StartTask failed: "@ + e
}

pub open spec fn start_session_failed(e: Seq<char>) -> Seq<char> {
    "StartSession failed: "@ + e
}

pub open spec fn finish_failed(e: Seq<char>) -> Seq<char> {
    "FinishSession failed: "@ + e
}

pub open spec fn frame_failed(index: nat, e: Seq<char>) -> Seq<char> {
    "Send audio frame "@ + decimal_digits(index) + " failed: "@ + e
}

pub open spec fn final_frame_failed(e: Seq<char>) -> Seq<char> {
    "Send final audio frame failed: "@ + e
}

pub open spec fn unexpected_reply(expected: Seq<char>, got: Seq<char>) -> Seq<char> {
    "Expected "@ + expected + ", got "@ + got
}

pub open spec fn missing_reply(expected: Seq<char>) -> Seq<char> {
    "Failed to receive "@ + expected
}

pub open spec fn idle_timeout_text() -> Seq<char> {
    "Timed out waiting for backend activity"@
}

pub open spec fn json_error_text(t: Seq<char>) -> Seq<char> {
    "Server returned JSON error: "@ + t
}

pub open spec fn read_failed_text(e: Seq<char>) -> Seq<char> {
    "Read failed: "@ + e
}

pub open spec fn closed_text() -> Seq<char> {
    "Connection closed unexpectedly"@
}

pub open spec fn stream_closed_text() -> Seq<char> {
    "WebSocket closed unexpectedly"@
}

/// A reply type that reports a failed session or task.
pub open spec fn is_failure_type(t: Seq<char>) -> bool {
    t == "SessionFailed"@ || t == "TaskFailed"@
}

/// The failure text of a failure reply: its type, code and status message.
pub open spec fn reply_failure_text(resp: AsrResponse) -> Seq<char> {
    resp.message_type@ + ": code="@ + decimal_text(resp.status_code as int) + ", status="@
        + resp.status_message@
}

// ---------------------------------------------------------------------------
// The transition function

/// The updates a reply gives: its text updates, then `completed` when the
/// service finished the session, or `failed` when it reports a failure.
pub open spec fn reply_updates(resp: AsrResponse) -> Seq<ResultView> {
    let texts = match resp.result {
        Some(doc) => document_results(doc),
        None => Seq::empty(),
    };
    if resp.message_type@ == "SessionFinished"@ {
        texts.push(completed_view())
    } else if is_failure_type(resp.message_type@) {
        texts.push(failed_view(reply_failure_text(resp)))
    } else {
        texts
    }
}

/// The reply ends the session (finished or failed).
pub open spec fn reply_ends(resp: AsrResponse) -> bool {
    resp.message_type@ == "SessionFinished"@ || is_failure_type(resp.message_type@)
}

/// The phase a session returns to between replies.
pub open spec fn loop_phase(kind: SessionKind) -> Phase {
    match kind {
        SessionKind::File { .. } => Phase::Poll,
        SessionKind::Stream => Phase::Select,
    }
}

pub open spec fn with_phase(s: SessionView, p: Phase) -> SessionView {
    SessionView { phase: p, pending: Seq::empty(), delivered: 0, resume: false, ..s }
}

/// Report `items` (non-empty), then go on (`resume`) or end.
pub open spec fn emit_then(s: SessionView, items: Seq<ResultView>, resume: bool) -> SessionView {
    SessionView { phase: Phase::Deliver, pending: items, delivered: 0, resume, ..s }
}

/// Report one failure, then end.
pub open spec fn fail_with(s: SessionView, msg: Seq<char>) -> SessionView {
    emit_then(s, seq![failed_view(msg)], false)
}

/// Record reply activity at `now`.
pub open spec fn touch(s: SessionView, now: u64) -> SessionView {
    SessionView { last_activity: Some(now), ..s }
}

pub open spec fn with_frame(s: SessionView, next: u64, p: Phase) -> SessionView {
    SessionView { next_frame: next, ..with_phase(s, p) }
}

/// What a reply does to a session waiting for replies.
pub open spec fn on_reply(s: SessionView, resp: AsrResponse) -> SessionView {
    let items = reply_updates(resp);
    if items.len() == 0 {
        with_phase(s, loop_phase(s.kind))
    } else {
        emit_then(s, items, !reply_ends(resp))
    }
}

/// Where a session goes once the service confirms the session started.
pub open spec fn after_session_started(s: SessionView) -> SessionView {
    match s.kind {
        SessionKind::File { frame_count } => if s.next_frame < frame_count {
            with_phase(s, Phase::FrameCheck)
        } else {
            with_phase(s, Phase::Finish)
        },
        SessionKind::Stream => with_phase(s, Phase::Select),
    }
}

/// What a handshake read does: `ok` is the next state when the expected
/// reply (or an undecodable binary message) arrives.
pub open spec fn on_handshake_reply(
    s: SessionView,
    e: Event,
    expected: Seq<char>,
    ok: SessionView,
) -> SessionView {
    match e {
        Event::Received { message, .. } => match message {
            WsEvent::Binary(Some(resp)) => if resp.message_type@ == expected {
                ok
            } else {
                fail_with(s, unexpected_reply(expected, resp.message_type@))
            },
            WsEvent::Binary(None) => ok,
            _ => fail_with(s, missing_reply(expected)),
        },
        _ => s,
    }
}

/// What the outcome of a send does: `ok` on success, a failure with
/// `failure(error)` otherwise.
pub open spec fn on_sent(s: SessionView, e: Event, ok: SessionView, failure: spec_fn(
    Seq<char>,
) -> Seq<char>) -> SessionView {
    match e {
        Event::Sent(r) => match r {
            Ok(_) => ok,
            Err(m) => fail_with(s, failure(m@)),
        },
        _ => s,
    }
}

/// The next state of a session after `e`. An event of the wrong kind for the
/// current phase leaves the session unchanged.
pub open spec fn session_next(s: SessionView, e: Event) -> SessionView {
    match s.phase {
        Phase::StartTask => on_sent(
            s,
            e,
            with_phase(s, Phase::AwaitTaskStarted),
            |m: Seq<char>| start_task_failed(m),
        ),
        Phase::AwaitTaskStarted => on_handshake_reply(
            s,
            e,
            "TaskStarted"@,
            with_phase(s, Phase::StartSession),
        ),
        Phase::StartSession => on_sent(
            s,
            e,
            with_phase(s, Phase::AwaitSessionStarted),
            |m: Seq<char>| start_session_failed(m),
        ),
        Phase::AwaitSessionStarted => on_handshake_reply(
            s,
            e,
            "SessionStarted"@,
            with_phase(s, Phase::ReadClock),
        ),
        Phase::ReadClock => match e {
            Event::Clock(ms) => after_session_started(SessionView { start_ms: ms, ..s }),
            _ => s,
        },
        Phase::FrameCheck => match e {
            Event::CancelFlag(c) => if c {
                emit_then(s, seq![cancelled_view()], false)
            } else {
                with_phase(s, Phase::SendFrame)
            },
            _ => s,
        },
        Phase::SendFrame => {
            let count = match s.kind {
                SessionKind::File { frame_count } => frame_count,
                SessionKind::Stream => 0,
            };
            let next = (s.next_frame + 1) as u64;
            on_sent(
                s,
                e,
                with_frame(s, next, if next < count { Phase::FrameCheck } else { Phase::Finish }),
                |m: Seq<char>| frame_failed(s.next_frame as nat, m),
            )
        },
        Phase::Finish => on_sent(s, e, with_phase(s, Phase::Poll), |m: Seq<char>| finish_failed(m)),
        Phase::Poll => match e {
            Event::Polled { cancelled, now_ns } => if cancelled {
                emit_then(s, seq![cancelled_view(), completed_view()], false)
            } else {
                let last = match s.last_activity {
                    Some(l) => l,
                    None => now_ns,
                };
                if now_ns > last + IDLE_LIMIT_NS {
                    fail_with(s, idle_timeout_text())
                } else {
                    touch(with_phase(s, Phase::Wait), last)
                }
            },
            _ => s,
        },
        Phase::Wait => match e {
            Event::ReadTimedOut => with_phase(s, Phase::Poll),
            Event::Received { message, now_ns } => match message {
                WsEvent::Binary(Some(resp)) => on_reply(touch(s, now_ns), resp),
                WsEvent::Binary(None) => with_phase(touch(s, now_ns), Phase::Poll),
                WsEvent::Text(t) => fail_with(touch(s, now_ns), json_error_text(t@)),
                WsEvent::Other => with_phase(s, Phase::Poll),
                WsEvent::ReadError(m) => fail_with(touch(s, now_ns), read_failed_text(m@)),
                WsEvent::Closed => fail_with(s, closed_text()),
            },
            _ => s,
        },
        Phase::Select => match e {
            Event::Audio(chunk) => if s.audio_done {
                s
            } else {
                match chunk {
                    Some(data) => SessionView { chunk: data@, ..with_phase(s, Phase::SendChunk) },
                    None => with_phase(s, Phase::SendLast),
                }
            },
            Event::Received { message, .. } => match message {
                WsEvent::Binary(Some(resp)) => on_reply(s, resp),
                WsEvent::Binary(None) => with_phase(s, Phase::Select),
                WsEvent::Text(t) => fail_with(s, json_error_text(t@)),
                WsEvent::Other => with_phase(s, Phase::Select),
                WsEvent::ReadError(_) => fail_with(s, stream_closed_text()),
                WsEvent::Closed => fail_with(s, stream_closed_text()),
            },
            _ => s,
        },
        Phase::SendChunk => on_sent(
            s,
            e,
            with_frame(s, (s.next_frame + 1) as u64, Phase::Select),
            |m: Seq<char>| frame_failed(s.next_frame as nat, m),
        ),
        Phase::SendLast => on_sent(
            s,
            e,
            with_phase(s, Phase::StreamFinish),
            |m: Seq<char>| final_frame_failed(m),
        ),
        Phase::StreamFinish => on_sent(
            s,
            e,
            SessionView { audio_done: true, ..with_phase(s, Phase::Select) },
            |m: Seq<char>| finish_failed(m),
        ),
        Phase::Deliver => match e {
            Event::Delivered(ok) => if !ok && s.pending[s.delivered as int].status is None {
                with_phase(s, Phase::Done)
            } else if s.delivered + 1 >= s.pending.len() {
                if s.resume {
                    with_phase(s, loop_phase(s.kind))
                } else {
                    with_phase(s, Phase::Done)
                }
            } else {
                SessionView { delivered: s.delivered + 1, ..s }
            },
            _ => s,
        },
        Phase::Done => s,
    }
}

/// The command a session in state `s` gives.
pub open spec fn session_command(s: SessionView, c: Command) -> bool {
    match s.phase {
        Phase::StartTask => c matches Command::Send(r) && is_control_request(
            r,
            "StartTask"@,
            s.request_id,
            s.token,
        ),
        Phase::AwaitTaskStarted => c is Read,
        Phase::StartSession => c matches Command::Send(r) && is_start_session_request(
            r,
            s.request_id,
            s.token,
            s.device_id,
        ),
        Phase::AwaitSessionStarted => c is Read,
        Phase::ReadClock => c is ReadClock,
        Phase::FrameCheck => c is CheckCancel,
        Phase::SendFrame => {
            let count = match s.kind {
                SessionKind::File { frame_count } => frame_count,
                SessionKind::Stream => 0,
            };
            c matches Command::Send(r) && is_audio_request(
                r,
                s.request_id,
                s.frames[s.next_frame as int]@,
                file_frame_state(s.next_frame as int, count as int),
                frame_timestamp(s.start_ms as int, s.next_frame as int) as i64,
            )
        },
        Phase::Finish => c matches Command::Send(r) && is_control_request(
            r,
            "FinishSession"@,
            s.request_id,
            s.token,
        ),
        Phase::Poll => c is Poll,
        Phase::Wait => c is ReadWithTimeout,
        Phase::Select => c == Command::Select { audio_open: !s.audio_done },
        Phase::SendChunk => c matches Command::Send(r) && is_audio_request(
            r,
            s.request_id,
            s.chunk,
            stream_frame_state(s.next_frame as int),
            frame_timestamp(s.start_ms as int, s.next_frame as int) as i64,
        ),
        Phase::SendLast => c matches Command::Send(r) && is_audio_request(
            r,
            s.request_id,
            Seq::empty(),
            FRAME_LAST,
            frame_timestamp(s.start_ms as int, s.next_frame as int) as i64,
        ),
        Phase::StreamFinish => c matches Command::Send(r) && is_control_request(
            r,
            "FinishSession"@,
            s.request_id,
            s.token,
        ),
        Phase::Deliver => match c {
            Command::Emit(r) => r@ == s.pending[s.delivered as int],
            _ => false,
        },
        Phase::Done => c is Finished,
    }
}

/// The state a new session starts in: it will open a task under
/// `request_id` with `token` for device `device_id`, and a file session
/// will send `frames`.
pub open spec fn session_start(
    kind: SessionKind,
    request_id: Seq<char>,
    token: Seq<char>,
    device_id: Seq<char>,
    frames: Seq<Vec<u8>>,
) -> SessionView {
    SessionView {
        kind,
        request_id,
        token,
        device_id,
        frames,
        chunk: Seq::empty(),
        phase: Phase::StartTask,
        start_ms: 0,
        next_frame: 0,
        audio_done: false,
        last_activity: None,
        pending: Seq::empty(),
        delivered: 0,
        resume: false,
    }
}

/// The next live frame's timestamp is representable.
pub open spec fn next_timestamp_fits(s: SessionView) -> bool {
    frame_timestamp(s.start_ms as int, s.next_frame as int) <= i64::MAX
}

/// A clock reading a session of this kind can count its frames from: not
/// before the epoch, and (for a file) every frame's timestamp representable.
pub open spec fn clock_fits(kind: SessionKind, ms: i64) -> bool {
    &&& 0 <= ms
    &&& kind matches SessionKind::File { frame_count } ==> frame_timestamp(
        ms as int,
        frame_count as int,
    ) <= i64::MAX
}

/// A session may take `e`: the clock reading must fit the session, and a
/// live session only takes audio while its next frame's timestamp is
/// representable.
pub open spec fn may_take(s: SessionView, e: Event) -> bool {
    &&& (s.phase == Phase::Select && e is Audio ==> next_timestamp_fits(s))
    &&& (s.phase == Phase::ReadClock ==> match e {
        Event::Clock(ms) => clock_fits(s.kind, ms),
        _ => true,
    })
}

/// The states a session can be in.
pub open spec fn session_wf(s: SessionView) -> bool {
    &&& 0 <= s.start_ms
    &&& s.delivered <= s.pending.len()
    &&& (s.phase == Phase::Deliver ==> s.delivered < s.pending.len())
    &&& (s.phase != Phase::Deliver ==> s.pending.len() == 0 && s.delivered == 0)
    &&& match s.kind {
        SessionKind::File { frame_count } => {
            &&& s.frames.len() == frame_count
            &&& s.next_frame <= frame_count
            &&& (s.phase == Phase::FrameCheck || s.phase == Phase::SendFrame) ==> {
                &&& s.next_frame < frame_count
                &&& frame_timestamp(s.start_ms as int, frame_count as int) <= i64::MAX
            }
            &&& s.phase != Phase::Select && s.phase != Phase::SendChunk && s.phase
                != Phase::SendLast && s.phase != Phase::StreamFinish
        },
        SessionKind::Stream => {
            &&& (s.phase == Phase::SendChunk || s.phase == Phase::SendLast) ==> next_timestamp_fits(
                s,
            )
            &&& s.phase != Phase::FrameCheck && s.phase != Phase::SendFrame && s.phase
                != Phase::Finish && s.phase != Phase::Poll && s.phase != Phase::Wait
        },
    }
}

// ---------------------------------------------------------------------------
// Implementation

/// A recognition session (see the module documentation).
pub struct AsrSession {
    kind: SessionKind,
    request_id: String,
    token: String,
    device_id: String,
    frames: Vec<Vec<u8>>,
    chunk: Vec<u8>,
    phase: Phase,
    start_ms: i64,
    next_frame: u64,
    audio_done: bool,
    last_activity: Option<u64>,
    pending: Vec<TranscriptionResult>,
    delivered: usize,
    resume: bool,
}

impl View for AsrSession {
    type V = SessionView;

    closed spec fn view(&self) -> SessionView {
        SessionView {
            kind: self.kind,
            request_id: self.request_id@,
            token: self.token@,
            device_id: self.device_id@,
            frames: self.frames@,
            chunk: self.chunk@,
            phase: self.phase,
            start_ms: self.start_ms,
            next_frame: self.next_frame,
            audio_done: self.audio_done,
            last_activity: self.last_activity,
            pending: views_of(self.pending@),
            delivered: self.delivered as nat,
            resume: self.resume,
        }
    }
}

fn text_after(prefix: &str, tail: &str) -> (r: String)
    ensures
        r@ == prefix@ + tail@,
{
    let mut r = owned(prefix);
    push_text(&mut r, tail);
    r
}

fn frame_failed_message(index: u64, e: &str) -> (r: String)
    ensures
        r@ == frame_failed(index as nat, e@),
{
    let mut r = owned("Send audio frame ");
    push_decimal_u64(&mut r, index);
    push_text(&mut r, " failed: ");
    push_text(&mut r, e);
    r
}

fn unexpected_reply_message(expected: &str, got: &str) -> (r: String)
    ensures
        r@ == unexpected_reply(expected@, got@),
{
    let mut r = owned("Expected ");
    push_text(&mut r, expected);
    push_text(&mut r, ", got ");
    push_text(&mut r, got);
    r
}

fn reply_failure_message(resp: &AsrResponse) -> (r: String)
    ensures
        r@ == reply_failure_text(*resp),
{
    let mut r = owned(resp.message_type.as_str());
    push_text(&mut r, ": code=");
    push_decimal_i64(&mut r, resp.status_code as i64);
    push_text(&mut r, ", status=");
    push_text(&mut r, resp.status_message.as_str());
    r
}

/// `s` holds exactly the characters of `lit`.
pub fn text_is(s: &String, lit: &str) -> (r: bool)
    ensures
        r == (s@ == lit@),
{
    let t = owned(lit);
    *s == t
}

/// The updates a reply gives (see [`reply_updates`]).
pub fn updates_of_reply(resp: &AsrResponse) -> (r: Vec<TranscriptionResult>)
    ensures
        views_of(r@) == reply_updates(*resp),
{
    let mut items = match &resp.result {
        Some(doc) => results_from_document(doc),
        None => Vec::new(),
    };
    let ghost texts = views_of(items@);
    if text_is(&resp.message_type, "SessionFinished") {
        items.push(TranscriptionResult::completed());
        assert(views_of(items@) =~= texts.push(completed_view()));
    } else if text_is(&resp.message_type, "SessionFailed") || text_is(
        &resp.message_type,
        "TaskFailed",
    ) {
        items.push(TranscriptionResult::failed(reply_failure_message(resp)));
        assert(views_of(items@) =~= texts.push(failed_view(reply_failure_text(*resp))));
    }
    items
}

/// Whether a reply ends the session (see [`reply_ends`]).
pub fn reply_is_final(resp: &AsrResponse) -> (r: bool)
    ensures
        r == reply_ends(*resp),
{
    text_is(&resp.message_type, "SessionFinished") || text_is(&resp.message_type, "SessionFailed")
        || text_is(&resp.message_type, "TaskFailed")
}

impl TranscriptionResult {
    /// A copy with the same content.
    pub fn duplicate(&self) -> (r: TranscriptionResult)
        ensures
            r@ == self@,
    {
        TranscriptionResult {
            text: self.text.clone(),
            is_final: self.is_final,
            status: match &self.status {
                Some(s) => Some(s.clone()),
                None => None,
            },
            error: match &self.error {
                Some(s) => Some(s.clone()),
                None => None,
            },
        }
    }
}

impl AsrSession {
    /// The states a session can be in.
    pub closed spec fn wf(&self) -> bool {
        &&& session_wf(self@)
        &&& self.pending@.len() <= usize::MAX
    }

    /// A new file session that will send `frames` in order, opening its
    /// task under `request_id` with `token` for device `device_id`.
    pub fn new_file(request_id: String, token: String, device_id: String, frames: Vec<Vec<u8>>) -> (r:
        AsrSession)
        ensures
            r.wf(),
            r@ == session_start(
                SessionKind::File { frame_count: frames@.len() as u64 },
                request_id@,
                token@,
                device_id@,
                frames@,
            ),
    {
        let count = frames.len() as u64;
        let r = AsrSession {
            kind: SessionKind::File { frame_count: count },
            request_id,
            token,
            device_id,
            frames,
            chunk: Vec::new(),
            phase: Phase::StartTask,
            start_ms: 0,
            next_frame: 0,
            audio_done: false,
            last_activity: None,
            pending: Vec::new(),
            delivered: 0,
            resume: false,
        };
        assert(views_of(r.pending@) =~= Seq::<ResultView>::empty());
        assert(r@.chunk =~= Seq::<u8>::empty());
        r
    }

    /// A new live session, opening its task under `request_id` with `token`
    /// for device `device_id`.
    pub fn new_stream(request_id: String, token: String, device_id: String) -> (r: AsrSession)
        ensures
            r.wf(),
            r@ == session_start(
                SessionKind::Stream,
                request_id@,
                token@,
                device_id@,
                Seq::empty(),
            ),
    {
        let r = AsrSession {
            kind: SessionKind::Stream,
            request_id,
            token,
            device_id,
            frames: Vec::new(),
            chunk: Vec::new(),
            phase: Phase::StartTask,
            start_ms: 0,
            next_frame: 0,
            audio_done: false,
            last_activity: None,
            pending: Vec::new(),
            delivered: 0,
            resume: false,
        };
        assert(views_of(r.pending@) =~= Seq::<ResultView>::empty());
        assert(r@.chunk =~= Seq::<u8>::empty());
        assert(r@.frames =~= Seq::<Vec<u8>>::empty());
        r
    }

    /// Where the session stands.
    pub fn phase(&self) -> (r: Phase)
        ensures
            r == self@.phase,
    {
        self.phase
    }

    /// The session is over.
    pub fn is_done(&self) -> (r: bool)
        ensures
            r == (self@.phase == Phase::Done),
    {
        self.phase == Phase::Done
    }

    /// Whether the next live frame's timestamp is representable.
    pub fn timestamp_fits(&self) -> (r: bool)
        requires
            self.wf(),
        ensures
            r == next_timestamp_fits(self@),
    {
        (self.next_frame as u128) * 20 + (self.start_ms as u128) <= i64::MAX as u128
    }

    /// The outside work the session asks for now.
    pub fn command(&self) -> (c: Command)
        requires
            self.wf(),
        ensures
            session_command(self@, c),
    {
        match self.phase {
            Phase::StartTask => Command::Send(
                AsrRequest::start_task(self.request_id.as_str(), self.token.as_str()),
            ),
            Phase::AwaitTaskStarted => Command::Read,
            Phase::StartSession => Command::Send(
                AsrRequest::start_session(
                    self.request_id.as_str(),
                    self.token.as_str(),
                    self.device_id.as_str(),
                ),
            ),
            Phase::AwaitSessionStarted => Command::Read,
            Phase::ReadClock => Command::ReadClock,
            Phase::FrameCheck => Command::CheckCancel,
            Phase::SendFrame => {
                let count = match self.kind {
                    SessionKind::File { frame_count } => frame_count,
                    SessionKind::Stream => 0,
                };
                let n = self.frames.len();
                assert(self.next_frame < n);
                let index = self.next_frame as usize;
                Command::Send(
                    AsrRequest::task_request(
                        self.request_id.as_str(),
                        self.frames[index].as_slice(),
                        file_frame_state_of(self.next_frame, count),
                        frame_timestamp_of(self.start_ms, self.next_frame),
                    ),
                )
            },
            Phase::Finish => Command::Send(
                AsrRequest::finish_session(self.request_id.as_str(), self.token.as_str()),
            ),
            Phase::Poll => Command::Poll,
            Phase::Wait => Command::ReadWithTimeout,
            Phase::Select => Command::Select { audio_open: !self.audio_done },
            Phase::SendChunk => Command::Send(
                AsrRequest::task_request(
                    self.request_id.as_str(),
                    self.chunk.as_slice(),
                    stream_frame_state_of(self.next_frame),
                    frame_timestamp_of(self.start_ms, self.next_frame),
                ),
            ),
            Phase::SendLast => Command::Send(
                AsrRequest::task_request(
                    self.request_id.as_str(),
                    Vec::new().as_slice(),
                    FRAME_LAST,
                    frame_timestamp_of(self.start_ms, self.next_frame),
                ),
            ),
            Phase::StreamFinish => Command::Send(
                AsrRequest::finish_session(self.request_id.as_str(), self.token.as_str()),
            ),
            Phase::Deliver => Command::Emit(self.pending[self.delivered].duplicate()),
            Phase::Done => Command::Finished,
        }
    }

    fn go(&mut self, p: Phase)
        ensures
            final(self)@ == with_phase(old(self)@, p),
            final(self).pending@.len() == 0,
    {
        self.phase = p;
        self.pending = Vec::new();
        self.delivered = 0;
        self.resume = false;
        assert(views_of(self.pending@) =~= Seq::<ResultView>::empty());
    }

    fn emit_then(&mut self, items: Vec<TranscriptionResult>, resume: bool)
        ensures
            final(self)@ == emit_then(old(self)@, views_of(items@), resume),
            final(self).pending@.len() == items@.len(),
    {
        self.phase = Phase::Deliver;
        self.pending = items;
        self.delivered = 0;
        self.resume = resume;
    }

    fn fail(&mut self, msg: String)
        ensures
            final(self)@ == fail_with(old(self)@, msg@),
            final(self).pending@.len() == 1,
    {
        let mut items: Vec<TranscriptionResult> = Vec::new();
        items.push(TranscriptionResult::failed(msg));
        proof {
            assert(views_of(items@) =~= seq![failed_view(msg@)]);
        }
        self.emit_then(items, false);
    }

    fn on_reply(&mut self, resp: &AsrResponse)
        ensures
            final(self)@ == on_reply(old(self)@, *resp),
            final(self).pending@.len() <= usize::MAX,
    {
        let items = updates_of_reply(resp);
        if items.len() == 0 {
            let p = match self.kind {
                SessionKind::File { .. } => Phase::Poll,
                SessionKind::Stream => Phase::Select,
            };
            self.go(p);
        } else {
            let resume = !reply_is_final(resp);
            self.emit_then(items, resume);
        }
    }

    /// Takes the outcome of the work the session asked for.
    pub fn step(&mut self, e: Event)
        requires
            old(self).wf(),
            may_take(old(self)@, e),
        ensures
            final(self).wf(),
            final(self)@ == session_next(old(self)@, e),
    {
        match self.phase {
            Phase::StartTask => self.on_start_task(e),
            Phase::AwaitTaskStarted => self.on_await_task_started(e),
            Phase::StartSession => self.on_start_session(e),
            Phase::AwaitSessionStarted => self.on_await_session_started(e),
            Phase::ReadClock => self.on_read_clock(e),
            Phase::FrameCheck => self.on_frame_check(e),
            Phase::SendFrame => self.on_send_frame(e),
            Phase::Finish => self.on_finish(e),
            Phase::Poll => self.on_poll(e),
            Phase::Wait => self.on_wait(e),
            Phase::Select => self.on_select(e),
            Phase::SendChunk => self.on_send_chunk(e),
            Phase::SendLast => self.on_send_last(e),
            Phase::StreamFinish => self.on_stream_finish(e),
            Phase::Deliver => self.on_deliver(e),
            Phase::Done => {},
        }
    }

    fn on_start_task(&mut self, e: Event)
        requires
            old(self).wf(),
            may_take(old(self)@, e),
            old(self)@.phase == Phase::StartTask,
        ensures
            final(self).wf(),
            final(self)@ == session_next(old(self)@, e),
    {
        if let Event::Sent(r) = &e {
            match r {
                Ok(_) => self.go(Phase::AwaitTaskStarted),
                Err(m) => self.fail(text_after("StartTask failed: ", m.as_str())),
            }
        }
    }

    fn on_await_task_started(&mut self, e: Event)
        requires
            old(self).wf(),
            may_take(old(self)@, e),
            old(self)@.phase == Phase::AwaitTaskStarted,
        ensures
            final(self).wf(),
            final(self)@ == session_next(old(self)@, e),
    {
        if let Event::Received { message, .. } = &e {
            match message {
                WsEvent::Binary(Some(resp)) => {
                    if text_is(&resp.message_type, "TaskStarted") {
                        self.go(Phase::StartSession);
                    } else {
                        self.fail(
                            unexpected_reply_message(
                                "TaskStarted",
                                resp.message_type.as_str(),
                            ),
                        );
                    }
                },
                WsEvent::Binary(None) => self.go(Phase::StartSession),
                _ => self.fail(text_after("Failed to receive ", "TaskStarted")),
            }
        }
    }

    fn on_start_session(&mut self, e: Event)
        requires
            old(self).wf(),
            may_take(old(self)@, e),
            old(self)@.phase == Phase::StartSession,
        ensures
            final(self).wf(),
            final(self)@ == session_next(old(self)@, e),
    {
        if let Event::Sent(r) = &e {
            match r {
                Ok(_) => self.go(Phase::AwaitSessionStarted),
                Err(m) => self.fail(text_after("StartSession failed: ", m.as_str())),
            }
        }
    }

    fn on_await_session_started(&mut self, e: Event)
        requires
            old(self).wf(),
            may_take(old(self)@, e),
            old(self)@.phase == Phase::AwaitSessionStarted,
        ensures
            final(self).wf(),
            final(self)@ == session_next(old(self)@, e),
    {
        if let Event::Received { message, .. } = &e {
            match message {
                WsEvent::Binary(Some(resp)) => {
                    if text_is(&resp.message_type, "SessionStarted") {
                        self.go(Phase::ReadClock);
                    } else {
                        self.fail(
                            unexpected_reply_message(
                                "SessionStarted",
                                resp.message_type.as_str(),
                            ),
                        );
                    }
                },
                WsEvent::Binary(None) => self.go(Phase::ReadClock),
                _ => self.fail(text_after("Failed to receive ", "SessionStarted")),
            }
        }
    }

    fn on_read_clock(&mut self, e: Event)
        requires
            old(self).wf(),
            may_take(old(self)@, e),
            old(self)@.phase == Phase::ReadClock,
        ensures
            final(self).wf(),
            final(self)@ == session_next(old(self)@, e),
    {
        if let Event::Clock(ms) = e {
            self.start_ms = ms;
            let p = match self.kind {
                SessionKind::File { frame_count } => if self.next_frame < frame_count {
                    Phase::FrameCheck
                } else {
                    Phase::Finish
                },
                SessionKind::Stream => Phase::Select,
            };
            self.go(p);
        }
    }

    fn on_frame_check(&mut self, e: Event)
        requires
            old(self).wf(),
            may_take(old(self)@, e),
            old(self)@.phase == Phase::FrameCheck,
        ensures
            final(self).wf(),
            final(self)@ == session_next(old(self)@, e),
    {
        if let Event::CancelFlag(c) = &e {
            if *c {
                let mut items: Vec<TranscriptionResult> = Vec::new();
                items.push(TranscriptionResult::cancelled());
                assert(views_of(items@) =~= seq![cancelled_view()]);
                self.emit_then(items, false);
            } else {
                self.go(Phase::SendFrame);
            }
        }
    }

    fn on_send_frame(&mut self, e: Event)
        requires
            old(self).wf(),
            may_take(old(self)@, e),
            old(self)@.phase == Phase::SendFrame,
        ensures
            final(self).wf(),
            final(self)@ == session_next(old(self)@, e),
    {
        if let Event::Sent(r) = &e {
            match r {
                Ok(_) => {
                    let count = match self.kind {
                        SessionKind::File { frame_count } => frame_count,
                        SessionKind::Stream => 0,
                    };
                    let next = self.next_frame + 1;
                    self.next_frame = next;
                    if next < count {
                        self.go(Phase::FrameCheck);
                    } else {
                        self.go(Phase::Finish);
                    }
                },
                Err(m) => self.fail(frame_failed_message(self.next_frame, m.as_str())),
            }
        }
    }

    fn on_finish(&mut self, e: Event)
        requires
            old(self).wf(),
            may_take(old(self)@, e),
            old(self)@.phase == Phase::Finish,
        ensures
            final(self).wf(),
            final(self)@ == session_next(old(self)@, e),
    {
        if let Event::Sent(r) = &e {
            match r {
                Ok(_) => self.go(Phase::Poll),
                Err(m) => self.fail(text_after("FinishSession failed: ", m.as_str())),
            }
        }
    }

    fn on_poll(&mut self, e: Event)
        requires
            old(self).wf(),
            may_take(old(self)@, e),
            old(self)@.phase == Phase::Poll,
        ensures
            final(self).wf(),
            final(self)@ == session_next(old(self)@, e),
    {
        if let Event::Polled { cancelled, now_ns } = &e {
            if *cancelled {
                let mut items: Vec<TranscriptionResult> = Vec::new();
                items.push(TranscriptionResult::cancelled());
                items.push(TranscriptionResult::completed());
                assert(views_of(items@) =~= seq![cancelled_view(), completed_view()]);
                self.emit_then(items, false);
            } else {
                let last = match self.last_activity {
                    Some(l) => l,
                    None => *now_ns,
                };
                if *now_ns > last && *now_ns - last > IDLE_LIMIT_NS {
                    self.fail(owned("Timed out waiting for backend activity"));
                } else {
                    self.go(Phase::Wait);
                    self.last_activity = Some(last);
                }
            }
        }
    }

    fn on_wait(&mut self, e: Event)
        requires
            old(self).wf(),
            may_take(old(self)@, e),
            old(self)@.phase == Phase::Wait,
        ensures
            final(self).wf(),
            final(self)@ == session_next(old(self)@, e),
    {
        match &e {
            Event::ReadTimedOut => self.go(Phase::Poll),
            Event::Received { message, now_ns } => {
                match message {
                    WsEvent::Binary(Some(resp)) => {
                        self.last_activity = Some(*now_ns);
                        self.on_reply(resp);
                    },
                    WsEvent::Binary(None) => {
                        self.last_activity = Some(*now_ns);
                        self.go(Phase::Poll);
                    },
                    WsEvent::Text(t) => {
                        self.last_activity = Some(*now_ns);
                        self.fail(text_after("Server returned JSON error: ", t.as_str()));
                    },
                    WsEvent::Other => self.go(Phase::Poll),
                    WsEvent::ReadError(m) => {
                        self.last_activity = Some(*now_ns);
                        self.fail(text_after("Read failed: ", m.as_str()));
                    },
                    WsEvent::Closed => self.fail(owned("Connection closed unexpectedly")),
                }
            },
            _ => {},
        }
    }

    fn on_select(&mut self, e: Event)
        requires
            old(self).wf(),
            may_take(old(self)@, e),
            old(self)@.phase == Phase::Select,
        ensures
            final(self).wf(),
            final(self)@ == session_next(old(self)@, e),
    {
        match e {
            Event::Audio(chunk) => {
                if !self.audio_done {
                    match chunk {
                        Some(data) => {
                            self.go(Phase::SendChunk);
                            self.chunk = data;
                        },
                        None => self.go(Phase::SendLast),
                    }
                }
            },
            Event::Received { message, .. } => {
                match message {
                    WsEvent::Binary(Some(resp)) => self.on_reply(&resp),
                    WsEvent::Binary(None) => self.go(Phase::Select),
                    WsEvent::Text(t) => self.fail(
                        text_after("Server returned JSON error: ", t.as_str()),
                    ),
                    WsEvent::Other => self.go(Phase::Select),
                    WsEvent::ReadError(_) => self.fail(
                        owned("WebSocket closed unexpectedly"),
                    ),
                    WsEvent::Closed => self.fail(owned("WebSocket closed unexpectedly")),
                }
            },
            _ => {},
        }
    }

    fn on_send_chunk(&mut self, e: Event)
        requires
            old(self).wf(),
            may_take(old(self)@, e),
            old(self)@.phase == Phase::SendChunk,
        ensures
            final(self).wf(),
            final(self)@ == session_next(old(self)@, e),
    {
        if let Event::Sent(r) = &e {
            match r {
                Ok(_) => {
                    self.next_frame = self.next_frame + 1;
                    self.go(Phase::Select);
                },
                Err(m) => self.fail(frame_failed_message(self.next_frame, m.as_str())),
            }
        }
    }

    fn on_send_last(&mut self, e: Event)
        requires
            old(self).wf(),
            may_take(old(self)@, e),
            old(self)@.phase == Phase::SendLast,
        ensures
            final(self).wf(),
            final(self)@ == session_next(old(self)@, e),
    {
        if let Event::Sent(r) = &e {
            match r {
                Ok(_) => self.go(Phase::StreamFinish),
                Err(m) => self.fail(text_after("Send final audio frame failed: ", m.as_str())),
            }
        }
    }

    fn on_stream_finish(&mut self, e: Event)
        requires
            old(self).wf(),
            may_take(old(self)@, e),
            old(self)@.phase == Phase::StreamFinish,
        ensures
            final(self).wf(),
            final(self)@ == session_next(old(self)@, e),
    {
        if let Event::Sent(r) = &e {
            match r {
                Ok(_) => {
                    self.go(Phase::Select);
                    self.audio_done = true;
                },
                Err(m) => self.fail(text_after("FinishSession failed: ", m.as_str())),
            }
        }
    }

    fn on_deliver(&mut self, e: Event)
        requires
            old(self).wf(),
            may_take(old(self)@, e),
            old(self)@.phase == Phase::Deliver,
        ensures
            final(self).wf(),
            final(self)@ == session_next(old(self)@, e),
    {
        if let Event::Delivered(ok) = &e {
            let is_text = self.pending[self.delivered].status.is_none();
            if !*ok && is_text {
                self.go(Phase::Done);
            } else if self.delivered + 1 >= self.pending.len() {
                if self.resume {
                    let p = match self.kind {
                        SessionKind::File { .. } => Phase::Poll,
                        SessionKind::Stream => Phase::Select,
                    };
                    self.go(p);
                } else {
                    self.go(Phase::Done);
                }
            } else {
                self.delivered = self.delivered + 1;
            }
        }
    }
}

} // verus!
