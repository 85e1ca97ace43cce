//! The bookkeeping that keeps at most one file job and one live recording
//! running at a time.

use vstd::prelude::*;
use crate::text::owned;

verus! {

/// Why a job or recording could not start.
#[derive(Debug, Clone, Copy, PartialEq, Eq, Structural)]
pub enum StartRefusal {
    /// A file job is already running.
    FileJobRunning,
    /// A live recording is running.
    AlreadyRecording,
    /// A live recording is still stopping.
    RecordingStopping,
}

impl StartRefusal {
    /// The message shown to the user.
    pub fn message(&self) -> (r: String)
        ensures
            r@ == match *self {
                StartRefusal::FileJobRunning => "已有文件转写任务正在进行中"@,
                StartRefusal::AlreadyRecording => "已在录音中"@,
                StartRefusal::RecordingStopping => "录音会话正在停止，请稍候再试"@,
            },
    {
        match self {
            StartRefusal::FileJobRunning => owned("已有文件转写任务正在进行中"),
            StartRefusal::AlreadyRecording => owned("已在录音中"),
            StartRefusal::RecordingStopping => owned("录音会话正在停止，请稍候再试"),
        }
    }
}

/// Whether a file job runs, and whether its cancellation was requested.
#[derive(Debug, Clone, Copy, PartialEq, Eq, Structural)]
pub struct FileJobFlags {
    pub active: bool,
    pub cancel_requested: bool,
}

/// Starting a file job: refused while one runs; otherwise it is marked
/// running with no cancellation requested.
pub open spec fn file_begin(f: FileJobFlags) -> (FileJobFlags, Result<(), StartRefusal>) {
    if f.active {
        (f, Err(StartRefusal::FileJobRunning))
    } else {
        (FileJobFlags { active: true, cancel_requested: false }, Ok(()))
    }
}

/// The job's task ended: nothing runs and no cancellation is pending.
pub open spec fn file_finished(f: FileJobFlags) -> FileJobFlags {
    FileJobFlags { active: false, cancel_requested: false }
}

/// Cancelling: with a job running it stops being running and cancellation
/// is requested (answer `true`: abort its task and report `cancelled`);
/// with none running nothing changes (answer `false`).
pub open spec fn file_cancel(f: FileJobFlags) -> (FileJobFlags, bool) {
    if f.active {
        (FileJobFlags { active: false, cancel_requested: true }, true)
    } else {
        (f, false)
    }
}

impl FileJobFlags {
    /// No job running.
    pub fn new() -> (r: FileJobFlags)
        ensures
            r == (FileJobFlags { active: false, cancel_requested: false }),
    {
        FileJobFlags { active: false, cancel_requested: false }
    }

    /// Starts a job (see [`file_begin`]).
    pub fn begin(&mut self) -> (r: Result<(), StartRefusal>)
        ensures
            (*final(self), r) == file_begin(*old(self)),
    {
        if self.active {
            Err(StartRefusal::FileJobRunning)
        } else {
            self.active = true;
            self.cancel_requested = false;
            Ok(())
        }
    }

    /// Records that the job's task ended (see [`file_finished`]).
    pub fn finished(&mut self)
        ensures
            *final(self) == file_finished(*old(self)),
    {
        self.active = false;
        self.cancel_requested = false;
    }

    /// Cancels the running job (see [`file_cancel`]).
    pub fn cancel(&mut self) -> (r: bool)
        ensures
            (*final(self), r) == file_cancel(*old(self)),
    {
        if !self.active {
            false
        } else {
            self.active = false;
            self.cancel_requested = true;
            true
        }
    }
}

/// Whether a live recording runs, and whether it is stopping.
#[derive(Debug, Clone, Copy, PartialEq, Eq, Structural)]
pub struct RecordingFlags {
    pub active: bool,
    pub stopping: bool,
}

/// Starting a recording: refused while one is stopping, then while one
/// runs; otherwise it is marked running.
pub open spec fn recording_begin(f: RecordingFlags) -> (RecordingFlags, Result<(), StartRefusal>) {
    if f.stopping {
        (f, Err(StartRefusal::RecordingStopping))
    } else if f.active {
        (f, Err(StartRefusal::AlreadyRecording))
    } else {
        (RecordingFlags { active: true, stopping: f.stopping }, Ok(()))
    }
}

/// Setting up failed before the recording's session started: it no longer runs.
pub open spec fn recording_setup_failed(f: RecordingFlags) -> RecordingFlags {
    RecordingFlags { active: false, stopping: f.stopping }
}

/// The session failed to start or its results ended: nothing runs or stops.
pub open spec fn recording_ended(f: RecordingFlags) -> RecordingFlags {
    RecordingFlags { active: false, stopping: false }
}

/// Stopping: with a stop under way nothing changes (answer `false`);
/// otherwise the recording is stopping and no longer running (answer
/// `true`: stop the microphone).
pub open spec fn recording_stop(f: RecordingFlags) -> (RecordingFlags, bool) {
    if f.stopping {
        (f, false)
    } else {
        (RecordingFlags { active: false, stopping: true }, true)
    }
}

impl RecordingFlags {
    /// No recording.
    pub fn new() -> (r: RecordingFlags)
        ensures
            r == (RecordingFlags { active: false, stopping: false }),
    {
        RecordingFlags { active: false, stopping: false }
    }

    /// Starts a recording (see [`recording_begin`]).
    pub fn begin(&mut self) -> (r: Result<(), StartRefusal>)
        ensures
            (*final(self), r) == recording_begin(*old(self)),
    {
        if self.stopping {
            Err(StartRefusal::RecordingStopping)
        } else if self.active {
            Err(StartRefusal::AlreadyRecording)
        } else {
            self.active = true;
            Ok(())
        }
    }

    /// Records that setting up failed (see [`recording_setup_failed`]).
    pub fn setup_failed(&mut self)
        ensures
            *final(self) == recording_setup_failed(*old(self)),
    {
        self.active = false;
    }

    /// Records that the session failed to start or its results ended (see
    /// [`recording_ended`]).
    pub fn ended(&mut self)
        ensures
            *final(self) == recording_ended(*old(self)),
    {
        self.active = false;
        self.stopping = false;
    }

    /// Stops the recording (see [`recording_stop`]).
    pub fn stop(&mut self) -> (r: bool)
        ensures
            (*final(self), r) == recording_stop(*old(self)),
    {
        if self.stopping {
            false
        } else {
            self.stopping = true;
            self.active = false;
            true
        }
    }
}

/// At most one recording: once one has started, every further start is
/// refused until it has ended, whatever stops come in between.
pub proof fn lemma_one_recording_at_a_time(f: RecordingFlags)
    requires
        recording_begin(f).1 is Ok,
    ensures
        recording_begin(recording_begin(f).0).1 is Err,
        recording_begin(recording_stop(recording_begin(f).0).0).1 is Err,
        recording_begin(recording_ended(recording_begin(f).0)).1 is Ok,
{
}

/// Stopping twice is stopping once: the second stop changes nothing and
/// does not stop the microphone again.
pub proof fn lemma_stop_twice_is_stop_once(f: RecordingFlags)
    ensures
        recording_stop(recording_stop(f).0) == (recording_stop(f).0, false),
{
}

/// At most one file job: while one runs another start is refused; after it
/// finishes or is cancelled a new one starts with no cancellation pending.
pub proof fn lemma_one_file_job_at_a_time(f: FileJobFlags)
    requires
        file_begin(f).1 is Ok,
    ensures
        file_begin(file_begin(f).0).1 is Err,
        file_begin(file_finished(file_begin(f).0)) == (
            FileJobFlags { active: true, cancel_requested: false },
            Ok::<(), StartRefusal>(()),
        ),
        file_begin(file_cancel(file_begin(f).0).0) == (
            FileJobFlags { active: true, cancel_requested: false },
            Ok::<(), StartRefusal>(()),
        ),
{
}

/// Cancelling with no job running does nothing, so a second cancel is
/// harmless.
pub proof fn lemma_cancel_twice_is_cancel_once(f: FileJobFlags)
    ensures
        file_cancel(file_cancel(f).0) == (file_cancel(f).0, false),
{
}

} // verus!
