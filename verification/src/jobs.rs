//! A file transcription job: up to three attempts at a recognition session,
//! retrying on the service's transient failures, with the updates of the
//! successful attempt passed on to the user interface.

use vstd::prelude::*;
use crate::text::{owned, chars_of, contains_chars, contains_run, push_text, push_decimal_u64, decimal_digits};
use crate::transcription::{TranscriptionResult, ResultView, cancelled_view, failed_view};

verus! {

/// How many attempts a file job makes at most.
pub const MAX_FILE_TRANSCRIPTION_ATTEMPTS: u64 = 3;

/// Milliseconds to wait before attempt `attempt + 1`, per attempt made.
pub const RETRY_DELAY_STEP_MS: u64 = 700;

/// The lower-case form of a text (Unicode lower-casing).
pub uninterp spec fn lowercase_text(s: Seq<char>) -> Seq<char>;

/// The lower-case form of `s`.
///
/// Trusted: calls `str::to_lowercase`, which returns a new string holding
/// the lowercase equivalent of the input as the Unicode `Lowercase` property
/// defines it; the result depends on the input alone.
#[verifier::external_body]
fn to_lowercase(s: &str) -> (r: String)
    ensures
        r@ == lowercase_text(s@),
{
    s.to_lowercase()
}

/// A lower-cased error text that names a transient service failure.
pub open spec fn names_transient_failure(lower: Seq<char>) -> bool {
    contains_run(lower, "service discovery failure"@) || contains_run(lower, "50700000"@)
}

/// Whether a lower-cased error text names a transient service failure.
pub fn is_transient_failure_text(lower: &[char]) -> (r: bool)
    ensures
        r == names_transient_failure(lower@),
{
    let a = chars_of("service discovery failure");
    let b = chars_of("50700000");
    contains_chars(lower, a.as_slice()) || contains_chars(lower, b.as_slice())
}

/// Whether an error is worth another attempt: its lower-case form mentions
/// a service discovery failure or the code 50700000.
pub fn is_retryable_transcription_error(message: &str) -> (r: bool)
    ensures
        r == names_transient_failure(lowercase_text(message@)),
{
    let lower = to_lowercase(message);
    let cs = chars_of(lower.as_str());
    is_transient_failure_text(cs.as_slice())
}

proof fn lemma_run_inside(a: Seq<char>, b: Seq<char>, c: Seq<char>, needle: Seq<char>)
    requires
        contains_run(b, needle),
    ensures
        contains_run(a + b + c, needle),
{
    let i = choose|i: int|
        0 <= i && i + needle.len() <= b.len() && #[trigger] b.subrange(i, i + needle.len())
            == needle;
    let j = a.len() + i;
    assert((a + b + c).subrange(j, j + needle.len()) =~= b.subrange(i, i + needle.len()));
}

/// A message that names a transient failure still names one inside a
/// longer text `p + m + s`, provided the longer text lower-cases piecewise:
/// its lower-case form is that of `p`, then that of `m`, then that of `s`.
pub proof fn lemma_retryable_inside_longer_text(p: Seq<char>, m: Seq<char>, s: Seq<char>)
    requires
        names_transient_failure(lowercase_text(m)),
        lowercase_text(p + m + s) == lowercase_text(p) + lowercase_text(m) + lowercase_text(s),
    ensures
        names_transient_failure(lowercase_text(p + m + s)),
{
    let (lp, lm, ls) = (lowercase_text(p), lowercase_text(m), lowercase_text(s));
    if contains_run(lm, "service discovery failure"@) {
        lemma_run_inside(lp, lm, ls, "service discovery failure"@);
    } else {
        lemma_run_inside(lp, lm, ls, "50700000"@);
    }
}

/// Where a file job stands.
#[derive(Debug, Clone, Copy, PartialEq, Eq, Structural)]
pub enum JobPhase {
    /// Read the cancel flag before an attempt.
    CheckCancel,
    /// Load fresh credentials.
    LoadCredentials,
    /// Start a recognition session.
    Start,
    /// Take the session's next update.
    Receive,
    /// Report the pending update.
    Emit,
    /// Wait before the next attempt.
    Backoff,
    /// The job is over with its outcome.
    Done,
}

/// What a job does after reporting its pending update.
#[derive(Debug, Clone, Copy, PartialEq, Eq, Structural)]
pub enum AfterEmit {
    Receive,
    ReturnOk,
    ReturnErr,
}

/// The outside work a job asks for.
#[derive(Debug)]
pub enum JobCommand {
    CheckCancel,
    LoadCredentials,
    /// Start attempt number `attempt` (from 1).
    StartAttempt { attempt: u64 },
    NextResult,
    Emit(TranscriptionResult),
    Sleep { ms: u64 },
    /// End the job with this outcome.
    Return(Result<(), String>),
}

/// The outcome of the work a job asked for.
#[derive(Debug)]
pub enum JobEvent {
    CancelFlag(bool),
    /// Credentials were loaded, or not (with the error text).
    CredentialsLoaded(Result<(), String>),
    /// The session started, or failed to start with this error.
    Started(Result<(), String>),
    /// The session's next update, or `None` when it has no more.
    NextResult(Option<TranscriptionResult>),
    Emitted,
    Slept,
}

/// The state of a job.
pub struct JobView {
    pub attempt: u64,
    pub phase: JobPhase,
    pub pending: Option<ResultView>,
    pub after: AfterEmit,
    pub outcome: Option<Result<(), Seq<char>>>,
}

/// The error of an attempt that could not start.
pub open spec fn start_failed_text(attempt: u64, e: Seq<char>) -> Seq<char> {
    "Failed to start transcription attempt "@ + decimal_digits(attempt as nat) + ": "@ + e
}

/// The error text of a failed update.
pub open spec fn failure_text(r: TranscriptionResult) -> Seq<char> {
    match r.error {
        Some(e) => e@,
        None => "unknown transcription error"@,
    }
}

/// The job may try again after `attempt` for this error.
pub open spec fn retry_allowed(attempt: u64, error: Seq<char>) -> bool {
    attempt < MAX_FILE_TRANSCRIPTION_ATTEMPTS && names_transient_failure(lowercase_text(error))
}

pub open spec fn job_at(s: JobView, p: JobPhase) -> JobView {
    JobView { phase: p, pending: None, after: AfterEmit::Receive, outcome: None, ..s }
}

pub open spec fn job_emit(s: JobView, r: ResultView, after: AfterEmit, outcome: Option<
    Result<(), Seq<char>>,
>) -> JobView {
    JobView { phase: JobPhase::Emit, pending: Some(r), after, outcome, ..s }
}

pub open spec fn job_done(s: JobView, outcome: Result<(), Seq<char>>) -> JobView {
    JobView { phase: JobPhase::Done, pending: None, after: AfterEmit::Receive, outcome: Some(outcome), ..s }
}

/// The next state of a job after `e`; an event of the wrong kind changes nothing.
pub open spec fn job_next(s: JobView, e: JobEvent) -> JobView {
    match s.phase {
        JobPhase::CheckCancel => match e {
            JobEvent::CancelFlag(c) => if c {
                job_emit(s, cancelled_view(), AfterEmit::ReturnOk, Some(Ok(())))
            } else {
                job_at(s, JobPhase::LoadCredentials)
            },
            _ => s,
        },
        JobPhase::LoadCredentials => match e {
            JobEvent::CredentialsLoaded(r) => match r {
                Ok(_) => job_at(s, JobPhase::Start),
                Err(m) => job_done(s, Err(m@)),
            },
            _ => s,
        },
        JobPhase::Start => match e {
            JobEvent::Started(r) => match r {
                Ok(_) => job_at(s, JobPhase::Receive),
                Err(m) => {
                    let msg = start_failed_text(s.attempt, m@);
                    if retry_allowed(s.attempt, msg) {
                        job_at(s, JobPhase::Backoff)
                    } else {
                        job_emit(s, failed_view(msg), AfterEmit::ReturnErr, Some(Err(msg)))
                    }
                },
            },
            _ => s,
        },
        JobPhase::Receive => match e {
            JobEvent::NextResult(r) => match r {
                Some(x) => if x.status is Some && x.status.unwrap()@ == "failed"@ && retry_allowed(
                    s.attempt,
                    failure_text(x),
                ) {
                    job_at(s, JobPhase::Backoff)
                } else if x.status is Some {
                    job_emit(s, x@, AfterEmit::ReturnOk, Some(Ok(())))
                } else {
                    job_emit(s, x@, AfterEmit::Receive, None)
                },
                None => job_done(s, Ok(())),
            },
            _ => s,
        },
        JobPhase::Emit => match e {
            JobEvent::Emitted => match s.after {
                AfterEmit::Receive => job_at(s, JobPhase::Receive),
                _ => job_done(s, s.outcome.unwrap()),
            },
            _ => s,
        },
        JobPhase::Backoff => match e {
            JobEvent::Slept => JobView { attempt: (s.attempt + 1) as u64, ..job_at(s, JobPhase::CheckCancel) },
            _ => s,
        },
        JobPhase::Done => s,
    }
}

/// The command a job in state `s` gives.
pub open spec fn job_command(s: JobView, c: JobCommand) -> bool {
    match s.phase {
        JobPhase::CheckCancel => c is CheckCancel,
        JobPhase::LoadCredentials => c is LoadCredentials,
        JobPhase::Start => c == JobCommand::StartAttempt { attempt: s.attempt },
        JobPhase::Receive => c is NextResult,
        JobPhase::Emit => match c {
            JobCommand::Emit(r) => Some(r@) == s.pending,
            _ => false,
        },
        JobPhase::Backoff => c == JobCommand::Sleep { ms: (RETRY_DELAY_STEP_MS * s.attempt) as u64 },
        JobPhase::Done => match c {
            JobCommand::Return(r) => Some(match r {
                Ok(_) => Ok(()),
                Err(m) => Err(m@),
            }) == s.outcome,
            _ => false,
        },
    }
}

/// The states a job can be in.
pub open spec fn job_wf(s: JobView) -> bool {
    &&& 1 <= s.attempt <= MAX_FILE_TRANSCRIPTION_ATTEMPTS
    &&& (s.phase == JobPhase::Backoff ==> s.attempt < MAX_FILE_TRANSCRIPTION_ATTEMPTS)
    &&& (s.phase == JobPhase::Emit <==> s.pending is Some)
    &&& (s.phase == JobPhase::Emit && s.after != AfterEmit::Receive ==> s.outcome is Some)
    &&& (s.phase == JobPhase::Done ==> s.outcome is Some)
}

/// A file transcription job (see the module documentation).
pub struct FileJob {
    attempt: u64,
    phase: JobPhase,
    pending: Option<TranscriptionResult>,
    after: AfterEmit,
    outcome: Option<Result<(), String>>,
}

impl View for FileJob {
    type V = JobView;

    closed spec fn view(&self) -> JobView {
        JobView {
            attempt: self.attempt,
            phase: self.phase,
            pending: match self.pending {
                Some(r) => Some(r@),
                None => None,
            },
            after: self.after,
            outcome: match self.outcome {
                Some(o) => Some(
                    match o {
                        Ok(_) => Ok(()),
                        Err(m) => Err(m@),
                    },
                ),
                None => None,
            },
        }
    }
}

fn copy_text(s: &String) -> (r: String)
    ensures
        r@ == s@,
{
    s.clone()
}

impl FileJob {
    /// A job before its first attempt.
    pub fn new() -> (r: FileJob)
        ensures
            job_wf(r@),
            r@ == (JobView {
                attempt: 1,
                phase: JobPhase::CheckCancel,
                pending: None,
                after: AfterEmit::Receive,
                outcome: None,
            }),
    {
        FileJob {
            attempt: 1,
            phase: JobPhase::CheckCancel,
            pending: None,
            after: AfterEmit::Receive,
            outcome: None,
        }
    }

    /// The job is over.
    pub fn is_done(&self) -> (r: bool)
        ensures
            r == (self@.phase == JobPhase::Done),
    {
        self.phase == JobPhase::Done
    }

    /// The outside work the job asks for now.
    pub fn command(&self) -> (c: JobCommand)
        requires
            job_wf(self@),
        ensures
            job_command(self@, c),
    {
        match self.phase {
            JobPhase::CheckCancel => JobCommand::CheckCancel,
            JobPhase::LoadCredentials => JobCommand::LoadCredentials,
            JobPhase::Start => JobCommand::StartAttempt { attempt: self.attempt },
            JobPhase::Receive => JobCommand::NextResult,
            JobPhase::Emit => {
                let r = match &self.pending {
                    Some(r) => r.duplicate(),
                    None => TranscriptionResult::cancelled(),
                };
                JobCommand::Emit(r)
            },
            JobPhase::Backoff => JobCommand::Sleep { ms: RETRY_DELAY_STEP_MS * self.attempt },
            JobPhase::Done => {
                let r = match &self.outcome {
                    Some(Ok(_)) => Ok(()),
                    Some(Err(m)) => Err(copy_text(m)),
                    None => Ok(()),
                };
                JobCommand::Return(r)
            },
        }
    }

    fn go(&mut self, p: JobPhase)
        ensures
            final(self)@ == job_at(old(self)@, p),
    {
        self.phase = p;
        self.pending = None;
        self.after = AfterEmit::Receive;
        self.outcome = None;
    }

    fn finish(&mut self, outcome: Result<(), String>)
        ensures
            final(self)@ == job_done(
                old(self)@,
                match outcome {
                    Ok(_) => Ok(()),
                    Err(m) => Err(m@),
                },
            ),
    {
        self.phase = JobPhase::Done;
        self.pending = None;
        self.after = AfterEmit::Receive;
        self.outcome = Some(outcome);
    }

    fn emit(&mut self, r: TranscriptionResult, after: AfterEmit, outcome: Option<Result<(), String>>)
        ensures
            final(self)@ == job_emit(
                old(self)@,
                r@,
                after,
                match outcome {
                    Some(o) => Some(
                        match o {
                            Ok(_) => Ok(()),
                            Err(m) => Err(m@),
                        },
                    ),
                    None => None,
                },
            ),
    {
        self.phase = JobPhase::Emit;
        self.pending = Some(r);
        self.after = after;
        self.outcome = outcome;
    }

    /// Takes the outcome of the work the job asked for.
    #[verifier::rlimit(40)]
    pub fn step(&mut self, e: JobEvent)
        requires
            job_wf(old(self)@),
        ensures
            job_wf(final(self)@),
            final(self)@ == job_next(old(self)@, e),
    {
        match self.phase {
            JobPhase::CheckCancel => {
                if let JobEvent::CancelFlag(c) = &e {
                    if *c {
                        self.emit(TranscriptionResult::cancelled(), AfterEmit::ReturnOk, Some(Ok(())));
                    } else {
                        self.go(JobPhase::LoadCredentials);
                    }
                }
            },
            JobPhase::LoadCredentials => {
                if let JobEvent::CredentialsLoaded(r) = &e {
                    match r {
                        Ok(_) => self.go(JobPhase::Start),
                        Err(m) => self.finish(Err(copy_text(m))),
                    }
                }
            },
            JobPhase::Start => {
                if let JobEvent::Started(r) = &e {
                    match r {
                        Ok(_) => self.go(JobPhase::Receive),
                        Err(m) => {
                            let mut msg = owned("Failed to start transcription attempt ");
                            push_decimal_u64(&mut msg, self.attempt);
                            push_text(&mut msg, ": ");
                            push_text(&mut msg, m.as_str());
                            if self.attempt < MAX_FILE_TRANSCRIPTION_ATTEMPTS
                                && is_retryable_transcription_error(msg.as_str()) {
                                self.go(JobPhase::Backoff);
                            } else {
                                let r = TranscriptionResult::failed(copy_text(&msg));
                                self.emit(r, AfterEmit::ReturnErr, Some(Err(msg)));
                            }
                        },
                    }
                }
            },
            JobPhase::Receive => {
                if let JobEvent::NextResult(r) = &e {
                    match r {
                        Some(x) => {
                            let is_failed = match &x.status {
                                Some(st) => crate::session::text_is(st, "failed"),
                                None => false,
                            };
                            let retry = is_failed && {
                                let err = match &x.error {
                                    Some(m) => copy_text(m),
                                    None => owned("unknown transcription error"),
                                };
                                self.attempt < MAX_FILE_TRANSCRIPTION_ATTEMPTS
                                    && is_retryable_transcription_error(err.as_str())
                            };
                            if retry {
                                self.go(JobPhase::Backoff);
                            } else if x.status.is_some() {
                                self.emit(x.duplicate(), AfterEmit::ReturnOk, Some(Ok(())));
                            } else {
                                self.emit(x.duplicate(), AfterEmit::Receive, None);
                            }
                        },
                        None => self.finish(Ok(())),
                    }
                }
            },
            JobPhase::Emit => {
                if let JobEvent::Emitted = &e {
                    match self.after {
                        AfterEmit::Receive => self.go(JobPhase::Receive),
                        _ => {
                            let o = match &self.outcome {
                                Some(Ok(_)) => Ok(()),
                                Some(Err(m)) => Err(copy_text(m)),
                                None => Ok(()),
                            };
                            self.finish(o);
                        },
                    }
                }
            },
            JobPhase::Backoff => {
                if let JobEvent::Slept = &e {
                    self.go(JobPhase::CheckCancel);
                    self.attempt = self.attempt + 1;
                }
            },
            JobPhase::Done => {},
        }
    }
}

/// The state after taking `events` in order.
pub open spec fn job_run(s: JobView, events: Seq<JobEvent>) -> JobView
    decreases events.len(),
{
    if events.len() == 0 {
        s
    } else {
        job_run(job_next(s, events[0]), events.drop_first())
    }
}

/// The state of a job before its first attempt.
pub open spec fn job_start() -> JobView {
    JobView {
        attempt: 1,
        phase: JobPhase::CheckCancel,
        pending: None,
        after: AfterEmit::Receive,
        outcome: None,
    }
}

proof fn lemma_job_next_wf(s: JobView, e: JobEvent)
    requires
        job_wf(s),
    ensures
        job_wf(job_next(s, e)),
        job_next(s, e).attempt == s.attempt || (s.phase == JobPhase::Backoff
            && job_next(s, e).attempt == s.attempt + 1),
{
}

proof fn lemma_job_run_wf(s: JobView, events: Seq<JobEvent>)
    requires
        job_wf(s),
    ensures
        job_wf(job_run(s, events)),
        s.attempt <= job_run(s, events).attempt,
    decreases events.len(),
{
    if events.len() > 0 {
        lemma_job_next_wf(s, events[0]);
        lemma_job_run_wf(job_next(s, events[0]), events.drop_first());
    }
}

/// A job makes at most three attempts, numbered from 1 upward: whatever
/// happens, the attempt it is on stays between 1 and 3, and it waits for
/// another attempt only while fewer than three were made.
pub proof fn lemma_at_most_three_attempts(events: Seq<JobEvent>)
    ensures
        1 <= job_run(job_start(), events).attempt <= MAX_FILE_TRANSCRIPTION_ATTEMPTS,
        job_run(job_start(), events).phase == JobPhase::Backoff ==> job_run(
            job_start(),
            events,
        ).attempt < MAX_FILE_TRANSCRIPTION_ATTEMPTS,
{
    lemma_job_run_wf(job_start(), events);
}

/// A job that is over stays over.
pub proof fn lemma_job_done_is_final(s: JobView, events: Seq<JobEvent>)
    requires
        s.phase == JobPhase::Done,
    ensures
        job_run(s, events) == s,
    decreases events.len(),
{
    if events.len() > 0 {
        lemma_job_done_is_final(s, events.drop_first());
    }
}

/// Every update a job receives is reported, except a failure it retries:
/// the job's next step is to report exactly that update, or to wait before
/// another attempt, and it waits only after a failure before the last
/// attempt. After reporting a status update (completed, failed or
/// cancelled) the job ends successfully; after a text update it reads on.
pub proof fn lemma_received_updates_are_reported(s: JobView, x: TranscriptionResult)
    requires
        job_wf(s),
        s.phase == JobPhase::Receive,
    ensures
        ({
            let n = job_next(s, JobEvent::NextResult(Some(x)));
            let m = job_next(n, JobEvent::Emitted);
            &&& n.phase == JobPhase::Backoff || (n.phase == JobPhase::Emit && n.pending == Some(
                x@,
            ))
            &&& n.phase == JobPhase::Backoff ==> (s.attempt < MAX_FILE_TRANSCRIPTION_ATTEMPTS
                && (x.status matches Some(st) && st@ == "failed"@))
            &&& s.attempt == MAX_FILE_TRANSCRIPTION_ATTEMPTS ==> n.phase == JobPhase::Emit
                && n.pending == Some(x@)
            &&& n.phase == JobPhase::Emit && x.status is Some ==> m.phase == JobPhase::Done
                && m.outcome == Some(Ok::<(), Seq<char>>(()))
            &&& n.phase == JobPhase::Emit && x.status is None ==> m.phase == JobPhase::Receive
        }),
{
}

/// A failure to start the last attempt is reported, not retried: the job
/// reports `failed` with the attempt's error, then ends with that error.
pub proof fn lemma_last_attempt_is_not_retried(s: JobView, error: String)
    requires
        s.phase == JobPhase::Start,
        s.attempt == MAX_FILE_TRANSCRIPTION_ATTEMPTS,
    ensures
        ({
            let msg = start_failed_text(s.attempt, error@);
            let n = job_next(s, JobEvent::Started(Err(error)));
            &&& n.phase == JobPhase::Emit
            &&& n.pending == Some(failed_view(msg))
            &&& job_next(n, JobEvent::Emitted).phase == JobPhase::Done
            &&& job_next(n, JobEvent::Emitted).outcome == Some(Err::<(), Seq<char>>(msg))
        }),
{
}

} // verus!
