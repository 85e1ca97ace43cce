use doubao_voice_input::flags::{FileJobFlags, RecordingFlags, StartRefusal};

#[test]
fn one_file_job_at_a_time() {
    let mut f = FileJobFlags::new();
    assert!(f.begin().is_ok());
    assert_eq!(f.begin(), Err(StartRefusal::FileJobRunning));
    assert_eq!(StartRefusal::FileJobRunning.message(), "已有文件转写任务正在进行中");
    assert!(f.cancel());
    assert!(f.cancel_requested);
    assert!(!f.cancel());
    assert!(f.begin().is_ok());
    assert!(!f.cancel_requested);
    f.finished();
    assert_eq!(f, FileJobFlags::new());
}

#[test]
fn one_recording_at_a_time() {
    let mut r = RecordingFlags::new();
    assert!(r.begin().is_ok());
    assert_eq!(r.begin(), Err(StartRefusal::AlreadyRecording));
    assert_eq!(StartRefusal::AlreadyRecording.message(), "已在录音中");
    assert!(r.stop());
    assert!(!r.stop());
    assert_eq!(r.begin(), Err(StartRefusal::RecordingStopping));
    assert_eq!(StartRefusal::RecordingStopping.message(), "录音会话正在停止，请稍候再试");
    r.ended();
    assert!(r.begin().is_ok());
    r.setup_failed();
    assert!(!r.active);
    assert!(r.begin().is_ok());
}
