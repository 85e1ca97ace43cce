//! Properties of every run of a recognition session.

use vstd::prelude::*;
use crate::protocol::{WsEvent, AsrResponse};
use crate::session::{
    SessionKind, Phase, Event, Command, SessionView, session_next, session_start, session_wf,
    session_command, reply_updates, reply_ends, is_failure_type, may_take, IDLE_LIMIT_NS,
};
use crate::transcription::{
    ResultView, document_results, entries_view, result_entry, completed_view, failed_view,
    cancelled_view,
};
use crate::json::JsonValue;

verus! {

/// The state after taking `events` in order.
pub open spec fn run(s: SessionView, events: Seq<Event>) -> SessionView
    decreases events.len(),
{
    if events.len() == 0 {
        s
    } else {
        run(session_next(s, events[0]), events.drop_first())
    }
}

/// Every event of the run is one the session may take in turn (a live
/// session takes audio only while its next frame's timestamp is
/// representable).
pub open spec fn run_allowed(s: SessionView, events: Seq<Event>) -> bool
    decreases events.len(),
{
    events.len() == 0 || (may_take(s, events[0]) && run_allowed(
        session_next(s, events[0]),
        events.drop_first(),
    ))
}

/// The update a session asks to report when it takes `e` (at most one).
pub open spec fn reported(s: SessionView, e: Event) -> Seq<ResultView> {
    if s.phase == Phase::Deliver && e is Delivered {
        seq![s.pending[s.delivered as int]]
    } else {
        Seq::empty()
    }
}

/// Every update a session asks to report while taking `events`, in order.
pub open spec fn report_log(s: SessionView, events: Seq<Event>) -> Seq<ResultView>
    decreases events.len(),
{
    if events.len() == 0 {
        Seq::empty()
    } else {
        reported(s, events[0]) + report_log(session_next(s, events[0]), events.drop_first())
    }
}

/// An update that closes the session: `completed` or `failed`.
pub open spec fn is_closing(r: ResultView) -> bool {
    r.status == Some("completed"@) || r.status == Some("failed"@)
}

/// The kinds of request a session sends.
pub enum RequestKind {
    StartTask,
    StartSession,
    Audio,
    FinishSession,
}

/// The request whose sending `e` confirms, if any.
pub open spec fn confirmed(s: SessionView, e: Event) -> Seq<RequestKind> {
    match e {
        Event::Sent(r) => if r is Ok {
            match s.phase {
                Phase::StartTask => seq![RequestKind::StartTask],
                Phase::StartSession => seq![RequestKind::StartSession],
                Phase::SendFrame | Phase::SendChunk | Phase::SendLast => seq![RequestKind::Audio],
                Phase::Finish | Phase::StreamFinish => seq![RequestKind::FinishSession],
                _ => Seq::empty(),
            }
        } else {
            Seq::empty()
        },
        _ => Seq::empty(),
    }
}

/// Every request whose sending was confirmed while taking `events`, in order.
pub open spec fn request_log(s: SessionView, events: Seq<Event>) -> Seq<RequestKind>
    decreases events.len(),
{
    if events.len() == 0 {
        Seq::empty()
    } else {
        confirmed(s, events[0]) + request_log(session_next(s, events[0]), events.drop_first())
    }
}

/// The protocol's order of requests: StartTask, StartSession, any number
/// of audio frames, FinishSession, and nothing after it (a prefix of it).
pub open spec fn in_protocol_order(log: Seq<RequestKind>) -> bool {
    &&& (log.len() > 0 ==> log[0] is StartTask)
    &&& (log.len() > 1 ==> log[1] is StartSession)
    &&& forall|i: int|
        2 <= i < log.len() ==> (#[trigger] log[i] is Audio || (log[i] is FinishSession && i
            == log.len() - 1))
}

/// The numbers of the file frames whose sending `e` confirms, if any.
pub open spec fn confirmed_frame(s: SessionView, e: Event) -> Seq<u64> {
    match e {
        Event::Sent(r) => if r is Ok && (s.phase == Phase::SendFrame || s.phase
            == Phase::SendChunk) {
            seq![s.next_frame]
        } else {
            Seq::empty()
        },
        _ => Seq::empty(),
    }
}

/// The numbers of the audio-carrying frames confirmed while taking `events`.
pub open spec fn frame_log(s: SessionView, events: Seq<Event>) -> Seq<u64>
    decreases events.len(),
{
    if events.len() == 0 {
        Seq::empty()
    } else {
        confirmed_frame(s, events[0]) + frame_log(session_next(s, events[0]), events.drop_first())
    }
}

// ---------------------------------------------------------------------------
// Closing updates

/// What a session has left to report: no closing update before the last
/// item, and nothing reported after a closing one.
pub open spec fn pending_well_shaped(s: SessionView) -> bool {
    s.phase == Phase::Deliver ==> {
        &&& forall|k: int| 0 <= k < s.pending.len() - 1 ==> !is_closing(#[trigger] s.pending[k])
        &&& (is_closing(s.pending.last()) ==> !s.resume)
    }
}

proof fn lemma_entries_are_text(items: Seq<JsonValue>)
    ensures
        forall|k: int|
            0 <= k < entries_view(items).len() ==> (#[trigger] entries_view(items)[k]).status
                is None,
    decreases items.len(),
{
    if items.len() > 0 {
        lemma_entries_are_text(items.drop_last());
        let rest = entries_view(items.drop_last());
        let tail = match result_entry(items.last()) {
            Some(r) => seq![r],
            None => Seq::<ResultView>::empty(),
        };
        assert(entries_view(items) == rest + tail);
        assert forall|k: int| 0 <= k < entries_view(items).len() implies (
        #[trigger] entries_view(items)[k]).status is None by {
            if k >= rest.len() {
                assert(entries_view(items)[k] == tail[k - rest.len()]);
            } else {
                assert(entries_view(items)[k] == rest[k]);
            }
        }
    }
}

proof fn lemma_document_is_text(doc: JsonValue)
    ensures
        forall|k: int|
            0 <= k < document_results(doc).len() ==> (#[trigger] document_results(doc)[k]).status
                is None,
{
    match crate::json::json_get(doc, "results"@) {
        Some(r) => match crate::json::json_array(r) {
            Some(items) => lemma_entries_are_text(items),
            None => {},
        },
        None => {},
    }
}

proof fn lemma_status_texts_differ()
    ensures
        "completed"@ != "failed"@,
        "cancelled"@ != "completed"@,
        "cancelled"@ != "failed"@,
{
    reveal_strlit("completed");
    reveal_strlit("failed");
    reveal_strlit("cancelled");
    assert("completed"@[0] != "failed"@[0]);
    assert("cancelled"@[1] != "completed"@[1]);
    assert("cancelled"@[0] != "failed"@[0]);
}

proof fn lemma_reply_shape(resp: AsrResponse)
    ensures
        forall|k: int|
            0 <= k < reply_updates(resp).len() - 1 ==> !is_closing(
                #[trigger] reply_updates(resp)[k],
            ),
        reply_updates(resp).len() > 0 && is_closing(reply_updates(resp).last()) ==> reply_ends(
            resp,
        ),
{
    let texts = match resp.result {
        Some(doc) => document_results(doc),
        None => Seq::<ResultView>::empty(),
    };
    match resp.result {
        Some(doc) => lemma_document_is_text(doc),
        None => {},
    }
    assert forall|k: int| 0 <= k < texts.len() implies !is_closing(#[trigger] texts[k]) by {}
    if resp.message_type@ == "SessionFinished"@ {
        assert(reply_updates(resp) == texts.push(completed_view()));
    } else if is_failure_type(resp.message_type@) {
        assert(reply_updates(resp) == texts.push(failed_view(
            crate::session::reply_failure_text(resp),
        )));
    } else {
        assert(reply_updates(resp) == texts);
        if texts.len() > 0 {
            assert(!is_closing(texts[texts.len() - 1]));
        }
    }
}

proof fn lemma_next_well_shaped(s: SessionView, e: Event)
    requires
        session_wf(s),
        may_take(s, e),
        pending_well_shaped(s),
    ensures
        session_wf(session_next(s, e)),
        pending_well_shaped(session_next(s, e)),
        reported(s, e).len() == 1 && is_closing(reported(s, e)[0]) ==> session_next(s, e).phase
            == Phase::Done,
{
    lemma_status_texts_differ();
    match e {
        Event::Received { message, now_ns } => match message {
            WsEvent::Binary(Some(resp)) => lemma_reply_shape(resp),
            _ => {},
        },
        _ => {},
    }
    if s.phase == Phase::Deliver {
        if let Event::Delivered(ok) = e {
            if s.delivered + 1 < s.pending.len() {
                assert(!is_closing(s.pending[s.delivered as int]));
            }
        }
    }
}

/// A session that is over stays over and reports nothing more.
pub proof fn lemma_done_is_final(s: SessionView, events: Seq<Event>)
    requires
        s.phase == Phase::Done,
    ensures
        run(s, events) == s,
        report_log(s, events).len() == 0,
    decreases events.len(),
{
    if events.len() > 0 {
        assert(session_next(s, events[0]) == s);
        lemma_done_is_final(s, events.drop_first());
    }
}

proof fn lemma_closing_is_last_from(s: SessionView, events: Seq<Event>)
    requires
        session_wf(s),
        run_allowed(s, events),
        pending_well_shaped(s),
    ensures
        forall|k: int|
            0 <= k < report_log(s, events).len() && is_closing(#[trigger] report_log(s, events)[k])
                ==> k == report_log(s, events).len() - 1,
    decreases events.len(),
{
    if events.len() > 0 {
        let e = events[0];
        let n = session_next(s, e);
        let rest = events.drop_first();
        lemma_next_well_shaped(s, e);
        lemma_closing_is_last_from(n, rest);
        let head = reported(s, e);
        let tail = report_log(n, rest);
        assert(report_log(s, events) == head + tail);
        if head.len() == 1 && is_closing(head[0]) {
            lemma_done_is_final(n, rest);
        }
        assert forall|k: int|
            0 <= k < report_log(s, events).len() && is_closing(
                #[trigger] report_log(s, events)[k],
            ) implies k == report_log(s, events).len() - 1 by {
            if k < head.len() {
                assert(report_log(s, events)[k] == head[k]);
            } else {
                assert(report_log(s, events)[k] == tail[k - head.len()]);
            }
        }
    }
}

/// Once a session reports `completed` or `failed`, it reports nothing
/// more: such an update is always the last one of the session (so no
/// session reports both).
pub proof fn lemma_closing_update_is_last(
    kind: SessionKind,
    request_id: Seq<char>,
    token: Seq<char>,
    device_id: Seq<char>,
    frames: Seq<Vec<u8>>,
    events: Seq<Event>,
    k: int,
)
    requires
        session_wf(session_start(kind, request_id, token, device_id, frames)),
        run_allowed(session_start(kind, request_id, token, device_id, frames), events),
        0 <= k < report_log(session_start(kind, request_id, token, device_id, frames), events).len(),
        is_closing(report_log(session_start(kind, request_id, token, device_id, frames), events)[k]),
    ensures
        k == report_log(session_start(kind, request_id, token, device_id, frames), events).len() - 1,
{
    lemma_closing_is_last_from(session_start(kind, request_id, token, device_id, frames), events);
}

// ---------------------------------------------------------------------------
// Frames

proof fn lemma_frames_from(s: SessionView, events: Seq<Event>)
    requires
        session_wf(s),
        pending_well_shaped(s),
        run_allowed(s, events),
    ensures
        run(s, events).next_frame == s.next_frame + frame_log(s, events).len(),
        forall|i: int|
            0 <= i < frame_log(s, events).len() ==> #[trigger] frame_log(s, events)[i]
                == s.next_frame + i,
    decreases events.len(),
{
    if events.len() > 0 {
        let e = events[0];
        let n = session_next(s, e);
        let rest = events.drop_first();
        lemma_next_well_shaped(s, e);
        lemma_frames_from(n, rest);
        let head = confirmed_frame(s, e);
        let tail = frame_log(n, rest);
        lemma_next_well_shaped(s, e);
        assert(frame_log(s, events) == head + tail);
        assert(n.next_frame == s.next_frame + head.len());
        assert forall|i: int| 0 <= i < frame_log(s, events).len() implies #[trigger] frame_log(
            s,
            events,
        )[i] == s.next_frame + i by {
            if i < head.len() {
                assert(frame_log(s, events)[i] == head[i]);
            } else {
                assert(frame_log(s, events)[i] == tail[i - head.len()]);
            }
        }
    }
}

/// Audio frames go out in order: the frames whose sending a session
/// confirms are numbers 0, 1, 2, ... in turn, and the session's next frame
/// number is how many were sent.
pub proof fn lemma_frames_in_order(
    kind: SessionKind,
    request_id: Seq<char>,
    token: Seq<char>,
    device_id: Seq<char>,
    frames: Seq<Vec<u8>>,
    events: Seq<Event>,
)
    requires
        session_wf(session_start(kind, request_id, token, device_id, frames)),
        run_allowed(session_start(kind, request_id, token, device_id, frames), events),
    ensures
        forall|i: int|
            0 <= i < frame_log(session_start(kind, request_id, token, device_id, frames), events).len() ==> #[trigger] frame_log(
                session_start(kind, request_id, token, device_id, frames),
                events,
            )[i] == i,
        run(session_start(kind, request_id, token, device_id, frames), events).next_frame == frame_log(
            session_start(kind, request_id, token, device_id, frames),
            events,
        ).len(),
{
    lemma_frames_from(session_start(kind, request_id, token, device_id, frames), events);
}

// ---------------------------------------------------------------------------
// Request order

/// FinishSession has been sent by a session in state `s`.
pub open spec fn finish_sent(s: SessionView) -> bool {
    ||| s.phase == Phase::Poll
    ||| s.phase == Phase::Wait
    ||| (s.kind is File && s.phase == Phase::Deliver && s.resume)
    ||| (s.kind is Stream && s.audio_done)
}

/// How the requests confirmed so far fit the state a session is in.
pub open spec fn log_fits(s: SessionView, log: Seq<RequestKind>) -> bool {
    &&& in_protocol_order(log)
    &&& (s.phase == Phase::StartTask ==> log.len() == 0)
    &&& (s.phase == Phase::AwaitTaskStarted || s.phase == Phase::StartSession ==> log.len() == 1)
    &&& (s.phase != Phase::StartTask && s.phase != Phase::AwaitTaskStarted && s.phase
        != Phase::StartSession && s.phase != Phase::Done && !(s.phase == Phase::Deliver
        && !s.resume) ==> {
        &&& log.len() >= 2
        &&& (finish_sent(s) <==> log.last() is FinishSession)
    })
    &&& (s.audio_done ==> s.phase == Phase::Select || s.phase == Phase::Deliver || s.phase
        == Phase::Done)
    &&& (s.kind is File && s.phase != Phase::Done && !(s.phase == Phase::Deliver && !s.resume)
        ==> !s.audio_done)
}

proof fn lemma_next_fits(s: SessionView, e: Event, log: Seq<RequestKind>)
    requires
        session_wf(s),
        log_fits(s, log),
    ensures
        log_fits(session_next(s, e), log + confirmed(s, e)),
{
    let n = session_next(s, e);
    let c = confirmed(s, e);
    let l2 = log + c;
    assert(c.len() <= 1);
    if log.len() > 0 && log.last() is FinishSession {
        assert(c.len() == 0);
    }
    if c.len() == 1 && c[0] is StartTask {
        assert(log.len() == 0);
    }
    if c.len() == 1 && c[0] is StartSession {
        assert(log.len() == 1);
    }
    if c.len() == 1 && (c[0] is Audio || c[0] is FinishSession) {
        assert(log.len() >= 2);
    }
    assert forall|i: int| 2 <= i < l2.len() implies (#[trigger] l2[i] is Audio || (
    l2[i] is FinishSession && i == l2.len() - 1)) by {
        if i < log.len() {
            assert(l2[i] == log[i]);
        } else {
            assert(l2[i] == c[i - log.len()]);
        }
    }
    if l2.len() > 0 {
        assert(l2[0] == (if log.len() > 0 { log[0] } else { c[0] }));
    }
    if l2.len() > 1 {
        assert(l2[1] == (if log.len() > 1 { log[1] } else { c[1 - log.len()] }));
    }
    assert(in_protocol_order(l2));
    if c.len() == 1 {
        assert(l2.last() == c[0]);
    } else {
        assert(l2 == log);
    }
}

proof fn lemma_fits_from(s: SessionView, events: Seq<Event>, log: Seq<RequestKind>)
    requires
        session_wf(s),
        run_allowed(s, events),
        log_fits(s, log),
        pending_well_shaped(s),
    ensures
        in_protocol_order(log + request_log(s, events)),
    decreases events.len(),
{
    if events.len() > 0 {
        let e = events[0];
        let n = session_next(s, e);
        lemma_next_fits(s, e, log);
        lemma_next_well_shaped(s, e);
        lemma_fits_from(n, events.drop_first(), log + confirmed(s, e));
        assert(log + request_log(s, events) == (log + confirmed(s, e)) + request_log(
            n,
            events.drop_first(),
        ));
    } else {
        assert(log + request_log(s, events) == log);
    }
}

/// Requests go out in the protocol's order: StartTask, then StartSession,
/// then audio frames, then FinishSession, and nothing after FinishSession.
pub proof fn lemma_requests_in_protocol_order(
    kind: SessionKind,
    request_id: Seq<char>,
    token: Seq<char>,
    device_id: Seq<char>,
    frames: Seq<Vec<u8>>,
    events: Seq<Event>,
)
    requires
        session_wf(session_start(kind, request_id, token, device_id, frames)),
        run_allowed(session_start(kind, request_id, token, device_id, frames), events),
    ensures
        in_protocol_order(request_log(session_start(kind, request_id, token, device_id, frames), events)),
{
    let s = session_start(kind, request_id, token, device_id, frames);
    lemma_fits_from(s, events, Seq::empty());
    assert(Seq::<RequestKind>::empty() + request_log(s, events) == request_log(s, events));
}

// ---------------------------------------------------------------------------
// End of a live stream

/// When the capture channel of a live session closes, the session sends an
/// empty LAST frame, then FinishSession, and then goes on reading replies
/// (it does not end and waits for no more audio).
pub proof fn lemma_stream_end_keeps_reading(s: SessionView)
    requires
        session_wf(s),
        s.kind is Stream,
        s.phase == Phase::Select,
        !s.audio_done,
    ensures
        ({
            let e1 = Event::Audio(None);
            let s1 = session_next(s, e1);
            let s2 = session_next(s1, Event::Sent(Ok(())));
            let s3 = session_next(s2, Event::Sent(Ok(())));
            &&& s1.phase == Phase::SendLast
            &&& s2.phase == Phase::StreamFinish
            &&& s3.phase == Phase::Select
            &&& s3.audio_done
            &&& s3.next_frame == s.next_frame
        }),
{
}

// ---------------------------------------------------------------------------
// Closing a file session

/// A file session in state `s` has sent every frame.
pub open spec fn all_frames_sent(s: SessionView) -> bool {
    match s.kind {
        SessionKind::File { frame_count } => s.next_frame == frame_count,
        SessionKind::Stream => true,
    }
}

/// The phases in which a file session has nothing left to send but
/// FinishSession, or has sent it.
pub open spec fn past_frames(s: SessionView) -> bool {
    s.phase == Phase::Finish || s.phase == Phase::Poll || s.phase == Phase::Wait || (s.phase
        == Phase::Deliver && s.resume)
}

proof fn lemma_past_frames_from(s: SessionView, events: Seq<Event>)
    requires
        session_wf(s),
        pending_well_shaped(s),
        run_allowed(s, events),
        s.kind is File,
        past_frames(s) ==> all_frames_sent(s),
    ensures
        run(s, events).kind == s.kind,
        past_frames(run(s, events)) ==> all_frames_sent(run(s, events)),
    decreases events.len(),
{
    if events.len() > 0 {
        let e = events[0];
        lemma_next_well_shaped(s, e);
        lemma_past_frames_from(session_next(s, e), events.drop_first());
    }
}

/// A file session asks to close the session (and waits for replies) only
/// after it has sent every one of its frames.
pub proof fn lemma_finish_after_all_frames(
    frame_count: u64,
    request_id: Seq<char>,
    token: Seq<char>,
    device_id: Seq<char>,
    frames: Seq<Vec<u8>>,
    events: Seq<Event>,
)
    requires
        session_wf(session_start(SessionKind::File { frame_count }, request_id, token, device_id, frames)),
        run_allowed(session_start(SessionKind::File { frame_count }, request_id, token, device_id, frames), events),
    ensures
        past_frames(run(session_start(SessionKind::File { frame_count }, request_id, token, device_id, frames), events))
            ==> run(session_start(SessionKind::File { frame_count }, request_id, token, device_id, frames), events).next_frame
            == frame_count,
{
    lemma_past_frames_from(session_start(SessionKind::File { frame_count }, request_id, token, device_id, frames), events);
}

// ---------------------------------------------------------------------------
// One task, one identifier

proof fn lemma_run_keeps_identity(s: SessionView, events: Seq<Event>)
    ensures
        run(s, events).kind == s.kind,
        run(s, events).request_id == s.request_id,
        run(s, events).token == s.token,
        run(s, events).device_id == s.device_id,
        run(s, events).frames == s.frames,
    decreases events.len(),
{
    if events.len() > 0 {
        lemma_run_keeps_identity(session_next(s, events[0]), events.drop_first());
    }
}

/// Every request a session asks to send, at any point of any run, carries
/// the request identifier the session was made with; the task-opening,
/// session-opening and session-closing requests carry its token, and the
/// audio requests carry none.
pub proof fn lemma_one_request_id(
    kind: SessionKind,
    request_id: Seq<char>,
    token: Seq<char>,
    device_id: Seq<char>,
    frames: Seq<Vec<u8>>,
    events: Seq<Event>,
    c: Command,
)
    requires
        session_command(run(session_start(kind, request_id, token, device_id, frames), events), c),
    ensures
        match c {
            Command::Send(r) => {
                &&& r.request_id@ == request_id
                &&& (r.token@ == token || r.token@ == Seq::<char>::empty())
                &&& (r.method_name@ != "TaskRequest"@ ==> r.token@ == token)
            },
            _ => true,
        },
{
    lemma_run_keeps_identity(session_start(kind, request_id, token, device_id, frames), events);
    reveal_strlit("TaskRequest");
    reveal_strlit("StartTask");
    reveal_strlit("StartSession");
    reveal_strlit("FinishSession");
}

// ---------------------------------------------------------------------------
// Exactly one closing update

/// The events cancel nothing and every update reaches its receiver.
pub open spec fn uncancelled_and_delivered(events: Seq<Event>) -> bool {
    forall|i: int|
        0 <= i < events.len() ==> match #[trigger] events[i] {
            Event::CancelFlag(c) => !c,
            Event::Polled { cancelled, .. } => !cancelled,
            Event::Delivered(ok) => ok,
            _ => true,
        }
}

/// `e` is a reply saying the service finished the session.
pub open spec fn is_finished_reply(e: Event) -> bool {
    e matches Event::Received { message: WsEvent::Binary(Some(resp)), .. }
        && resp.message_type@ == "SessionFinished"@
}

/// A `completed` update.
pub open spec fn is_completed(r: ResultView) -> bool {
    r.status == Some("completed"@)
}

/// What a session has left to report when nothing is cancelled: text
/// updates and closing ones, a closing one last when the session ends after
/// them, and `completed` only once a finished reply was seen (`seen`).
pub open spec fn pending_closes(s: SessionView, seen: bool) -> bool {
    s.phase == Phase::Deliver ==> {
        &&& forall|k: int|
            0 <= k < s.pending.len() ==> (#[trigger] s.pending[k]).status is None || is_closing(
                s.pending[k],
            )
        &&& forall|k: int| 0 <= k < s.pending.len() && is_completed(#[trigger] s.pending[k]) ==> seen
        &&& (!s.resume ==> is_closing(s.pending.last()))
    }
}

proof fn lemma_reply_closes(resp: AsrResponse)
    ensures
        forall|k: int|
            0 <= k < reply_updates(resp).len() ==> (#[trigger] reply_updates(resp)[k]).status is None
                || is_closing(reply_updates(resp)[k]),
        forall|k: int|
            0 <= k < reply_updates(resp).len() && is_completed(#[trigger] reply_updates(resp)[k])
                ==> resp.message_type@ == "SessionFinished"@,
        reply_ends(resp) ==> reply_updates(resp).len() > 0 && is_closing(
            reply_updates(resp).last(),
        ),
{
    lemma_status_texts_differ();
    let texts = match resp.result {
        Some(doc) => document_results(doc),
        None => Seq::<ResultView>::empty(),
    };
    match resp.result {
        Some(doc) => lemma_document_is_text(doc),
        None => {},
    }
    if resp.message_type@ == "SessionFinished"@ {
        assert(reply_updates(resp) == texts.push(completed_view()));
    } else if is_failure_type(resp.message_type@) {
        assert(reply_updates(resp) == texts.push(
            failed_view(crate::session::reply_failure_text(resp)),
        ));
    } else {
        assert(reply_updates(resp) == texts);
    }
}

proof fn lemma_next_closes(s: SessionView, e: Event, seen: bool)
    requires
        session_wf(s),
        pending_closes(s, seen),
        match e {
            Event::CancelFlag(c) => !c,
            Event::Polled { cancelled, .. } => !cancelled,
            Event::Delivered(ok) => ok,
            _ => true,
        },
    ensures
        pending_closes(session_next(s, e), seen || is_finished_reply(e)),
        session_next(s, e).phase == Phase::Done && s.phase != Phase::Done ==> {
            &&& s.phase == Phase::Deliver
            &&& reported(s, e) == seq![s.pending.last()]
        },
{
    lemma_status_texts_differ();
    match e {
        Event::Received { message, now_ns } => match message {
            WsEvent::Binary(Some(resp)) => lemma_reply_closes(resp),
            _ => {},
        },
        _ => {},
    }
}

proof fn lemma_done_reports_closing(s: SessionView, events: Seq<Event>, seen: bool)
    requires
        session_wf(s),
        pending_well_shaped(s),
        pending_closes(s, seen),
        run_allowed(s, events),
        uncancelled_and_delivered(events),
        s.phase != Phase::Done,
        run(s, events).phase == Phase::Done,
    ensures
        report_log(s, events).len() > 0,
        is_closing(report_log(s, events).last()),
        forall|k: int|
            0 <= k < report_log(s, events).len() ==> (#[trigger] report_log(s, events)[k]).status
                is None || is_closing(report_log(s, events)[k]),
        forall|k: int|
            0 <= k < report_log(s, events).len() && is_completed(
                #[trigger] report_log(s, events)[k],
            ) ==> seen || exists|i: int|
                0 <= i < events.len() && is_finished_reply(#[trigger] events[i]),
    decreases events.len(),
{
    let e = events[0];
    let n = session_next(s, e);
    let rest = events.drop_first();
    assert(uncancelled_and_delivered(rest)) by {
        assert forall|i: int| 0 <= i < rest.len() implies match #[trigger] rest[i] {
            Event::CancelFlag(c) => !c,
            Event::Polled { cancelled, .. } => !cancelled,
            Event::Delivered(ok) => ok,
            _ => true,
        } by {
            assert(rest[i] == events[i + 1]);
        }
    }
    assert(match events[0] {
        Event::CancelFlag(c) => !c,
        Event::Polled { cancelled, .. } => !cancelled,
        Event::Delivered(ok) => ok,
        _ => true,
    });
    lemma_next_well_shaped(s, e);
    lemma_next_closes(s, e, seen);
    let seen2 = seen || is_finished_reply(e);
    let head = reported(s, e);
    let tail = report_log(n, rest);
    assert(report_log(s, events) == head + tail);
    let log = report_log(s, events);
    if n.phase == Phase::Done {
        lemma_done_is_final(n, rest);
        assert(log == head);
    } else {
        lemma_done_reports_closing(n, rest, seen2);
        assert(log.last() == tail.last());
    }
    if s.phase == Phase::Deliver {
        assert(s.delivered < s.pending.len());
    }
    assert forall|k: int| 0 <= k < log.len() implies (#[trigger] log[k]).status is None
        || is_closing(log[k]) by {
        if k < head.len() {
            assert(log[k] == head[k]);
        } else {
            assert(log[k] == tail[k - head.len()]);
        }
    }
    assert forall|k: int| 0 <= k < log.len() && is_completed(#[trigger] log[k]) implies seen
        || exists|i: int| 0 <= i < events.len() && is_finished_reply(#[trigger] events[i]) by {
        if k < head.len() {
            assert(log[k] == head[k]);
        } else {
            assert(log[k] == tail[k - head.len()]);
            if n.phase != Phase::Done {
                if !seen2 {
                    let j = choose|j: int| 0 <= j < rest.len() && is_finished_reply(#[trigger] rest[j]);
                    assert(events[j + 1] == rest[j]);
                }
            }
            if is_finished_reply(e) {
                assert(is_finished_reply(events[0]));
            }
        }
    }
}

/// A session that runs to its end with nothing cancelled and every update
/// reaching its receiver reports text updates and then exactly one closing
/// update, `completed` or `failed`, which is the last (so never both); it
/// reports `completed` only if the service sent a reply saying the session
/// finished.
pub proof fn lemma_one_closing_update(
    kind: SessionKind,
    request_id: Seq<char>,
    token: Seq<char>,
    device_id: Seq<char>,
    frames: Seq<Vec<u8>>,
    events: Seq<Event>,
)
    requires
        session_wf(session_start(kind, request_id, token, device_id, frames)),
        run_allowed(session_start(kind, request_id, token, device_id, frames), events),
        uncancelled_and_delivered(events),
        run(session_start(kind, request_id, token, device_id, frames), events).phase
            == Phase::Done,
    ensures
        ({
            let log = report_log(session_start(kind, request_id, token, device_id, frames), events);
            &&& log.len() > 0
            &&& is_closing(log.last())
            &&& forall|k: int| 0 <= k < log.len() - 1 ==> (#[trigger] log[k]).status is None
            &&& is_completed(log.last()) ==> exists|i: int|
                0 <= i < events.len() && is_finished_reply(#[trigger] events[i])
        }),
{
    let s0 = session_start(kind, request_id, token, device_id, frames);
    lemma_done_reports_closing(s0, events, false);
    lemma_closing_is_last_from(s0, events);
    let log = report_log(s0, events);
    assert forall|k: int| 0 <= k < log.len() - 1 implies (#[trigger] log[k]).status is None by {
        if is_closing(log[k]) {
            assert(k == log.len() - 1);
        }
    }
    assert(log[log.len() - 1] == log.last());
}

// ---------------------------------------------------------------------------
// Replies and the idle clock

/// `n` deliveries that all reach the receiver.
pub open spec fn deliveries(n: nat) -> Seq<Event> {
    Seq::new(n, |i: int| Event::Delivered(true))
}

proof fn lemma_deliver_all(s: SessionView)
    requires
        s.kind is File,
        s.phase == Phase::Deliver,
        s.resume,
        s.delivered < s.pending.len(),
    ensures
        run(s, deliveries((s.pending.len() - s.delivered) as nat)).phase == Phase::Poll,
        run(s, deliveries((s.pending.len() - s.delivered) as nat)).last_activity
            == s.last_activity,
    decreases s.pending.len() - s.delivered,
{
    let k = (s.pending.len() - s.delivered) as nat;
    let evs = deliveries(k);
    assert(evs[0] == Event::Delivered(true));
    let n = session_next(s, evs[0]);
    assert(run(s, evs) == run(n, evs.drop_first()));
    assert(evs.drop_first() =~= deliveries((k - 1) as nat));
    if s.delivered + 1 < s.pending.len() {
        lemma_deliver_all(n);
    } else {
        assert(evs.drop_first() =~= Seq::<Event>::empty());
        assert(run(n, evs.drop_first()) == n);
    }
}

/// A reply counts as activity of the service. Take a file session waiting
/// for replies, and a reply (one that does not end the session) received
/// at time `t`: once its updates are all delivered the session polls
/// again, and a poll at any time up to the idle limit after `t` keeps
/// waiting for replies; it does not give up, whatever came before the reply.
pub proof fn lemma_reply_resets_idle_clock(s: SessionView, resp: AsrResponse, t: u64, t2: u64)
    requires
        s.kind is File,
        s.phase == Phase::Wait,
        !reply_ends(resp),
        t <= t2,
        t2 <= t + IDLE_LIMIT_NS,
    ensures
        ({
            let s1 = session_next(
                s,
                Event::Received { message: WsEvent::Binary(Some(resp)), now_ns: t },
            );
            let k = reply_updates(resp).len();
            let s2 = run(s1, deliveries(k));
            let s3 = session_next(s2, Event::Polled { cancelled: false, now_ns: t2 });
            &&& s1.last_activity == Some(t)
            &&& s2.phase == Phase::Poll
            &&& s2.last_activity == Some(t)
            &&& s3.phase == Phase::Wait
            &&& s3.last_activity == Some(t)
        }),
{
    let s1 = session_next(s, Event::Received { message: WsEvent::Binary(Some(resp)), now_ns: t });
    let k = reply_updates(resp).len();
    if k == 0 {
        assert(deliveries(k) =~= Seq::<Event>::empty());
    } else {
        lemma_deliver_all(s1);
    }
}

/// Messages that are not replies (pings, pongs and the like) and binary
/// messages that do not decode are passed over: a live session keeps
/// selecting, reports nothing, and its audio state stays as it was; a file
/// session goes back to polling, reporting nothing.
pub proof fn lemma_other_messages_are_passed_over(s: SessionView, now: u64)
    requires
        s.phase == Phase::Select || s.phase == Phase::Wait,
    ensures
        ({
            let e1 = Event::Received { message: WsEvent::Other, now_ns: now };
            let e2 = Event::Received { message: WsEvent::Binary(None), now_ns: now };
            let n1 = session_next(s, e1);
            let n2 = session_next(s, e2);
            let expected = if s.phase == Phase::Select { Phase::Select } else { Phase::Poll };
            &&& n1.phase == expected
            &&& n2.phase == expected
            &&& n1.pending.len() == 0
            &&& n2.pending.len() == 0
            &&& reported(s, e1).len() == 0
            &&& reported(s, e2).len() == 0
            &&& n1.audio_done == s.audio_done
            &&& n1.next_frame == s.next_frame
            &&& n2.audio_done == s.audio_done
            &&& n2.next_frame == s.next_frame
        }),
{
}

// ---------------------------------------------------------------------------
// What a reply reports

/// The updates of any reply begin with the text updates of its result
/// document, all of them, in order; a reply saying the session finished
/// adds exactly one `completed` after them, and a failure reply exactly one
/// `failed`.
pub proof fn lemma_reply_begins_with_its_texts(resp: AsrResponse)
    ensures
        ({
            let texts = match resp.result {
                Some(doc) => document_results(doc),
                None => Seq::<ResultView>::empty(),
            };
            let u = reply_updates(resp);
            &&& texts.len() <= u.len()
            &&& u.subrange(0, texts.len() as int) == texts
            &&& resp.message_type@ == "SessionFinished"@ ==> u.len() == texts.len() + 1
                && u.last() == completed_view()
            &&& is_failure_type(resp.message_type@) ==> u.len() == texts.len() + 1
                && u.last().status == Some("failed"@)
        }),
{
    let texts = match resp.result {
        Some(doc) => document_results(doc),
        None => Seq::<ResultView>::empty(),
    };
    let u = reply_updates(resp);
    lemma_status_texts_differ();
    reveal_strlit("SessionFinished");
    reveal_strlit("SessionFailed");
    reveal_strlit("TaskFailed");
    assert("SessionFinished"@[8] != "SessionFailed"@[8]);
    assert("SessionFinished"@[0] != "TaskFailed"@[0]);
    if resp.message_type@ == "SessionFinished"@ {
        assert(u.subrange(0, texts.len() as int) =~= texts);
    } else if is_failure_type(resp.message_type@) {
        assert(u.subrange(0, texts.len() as int) =~= texts);
    } else {
        assert(u.subrange(0, texts.len() as int) =~= texts);
    }
}

} // verus!
