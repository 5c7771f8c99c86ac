use hypr_xdisplay::recorder::{recorder_command, RecorderError, RecorderSession, RecorderSupervisor};
use hypr_xdisplay::settings::Settings;
use hypr_xdisplay::supervisor::StartError;

#[test]
fn recorder_command_with_default_settings() {
    let settings = Settings::with_dirs(None, None);
    let c = recorder_command(&settings, "/tmp/rec.mp4");
    assert_eq!(c.program, "wf-recorder");
    assert_eq!(
        c.args,
        vec![
            "-f".to_string(),
            "/tmp/rec.mp4".to_string(),
            "-c".to_string(),
            "libx264".to_string(),
            "-r".to_string(),
            "30".to_string(),
            "--audio".to_string(),
        ]
    );
}

#[test]
fn recorder_command_with_all_options() {
    let mut settings = Settings::with_dirs(None, None);
    settings.recorder_codec = "libvpx".to_string();
    settings.recorder_framerate = Some(60);
    settings.recorder_resolution = Some("1920x1080".to_string());
    settings.recorder_hardware_accel = Some(true);
    settings.recorder_audio_device = Some("hw:0".to_string());
    settings.recorder_audio_source = Some("mic".to_string());
    settings.recorder_advanced_args = Some(" -preset  fast ".to_string());
    let c = recorder_command(&settings, "/v/out.webm");
    assert_eq!(
        c.args,
        vec![
            "-f".to_string(),
            "/v/out.webm".to_string(),
            "-c".to_string(),
            "libvpx".to_string(),
            "-r".to_string(),
            "60".to_string(),
            "-g".to_string(),
            "1920x1080".to_string(),
            "--hwaccel".to_string(),
            "--audio".to_string(),
            "hw:0".to_string(),
            "--audio".to_string(),
            "mic".to_string(),
            "-preset".to_string(),
            "fast".to_string(),
        ]
    );
}

#[test]
fn audio_source_none_suppresses_audio() {
    let mut settings = Settings::with_dirs(None, None);
    settings.recorder_audio_source = Some("None".to_string());
    settings.recorder_framerate = None;
    let c = recorder_command(&settings, "p");
    assert_eq!(
        c.args,
        vec!["-f".to_string(), "p".to_string(), "-c".to_string(), "libx264".to_string()]
    );
}

#[test]
fn recorder_session_is_single_slot_and_idempotent() {
    let mut rec = RecorderSupervisor::new();
    assert!(!rec.is_recording());
    rec.start_commit(Ok(RecorderSession { pid: 4321, started_ms: 1_000 })).unwrap();
    assert!(rec.is_recording());
    // A second start leaves the first session in place.
    rec.start_commit(Ok(RecorderSession { pid: 9999, started_ms: 2_000 })).unwrap();
    assert_eq!(rec.elapsed_ms(3_500), Some(2_500));
    assert_eq!(rec.elapsed_ms(500), Some(0));
    let taken = rec.stop_begin();
    assert_eq!(taken, Some(RecorderSession { pid: 4321, started_ms: 1_000 }));
    assert!(!rec.is_recording());
    assert_eq!(rec.elapsed_ms(10_000), None);
}

#[test]
fn recorder_spawn_failure_leaves_no_session() {
    let mut rec = RecorderSupervisor::new();
    let r = rec.start_commit(Err("missing binary".to_string()));
    match r {
        Err(StartError::Spawn(m)) => assert_eq!(m, "missing binary"),
        _ => panic!("a spawn failure must be returned"),
    }
    assert!(!rec.is_recording());
}

#[test]
fn pause_and_resume_without_session_report_not_running() {
    let rec = RecorderSupervisor::new();
    assert!(matches!(rec.pause_recording(), Err(RecorderError::NotRunning)));
    assert!(matches!(rec.resume_recording(), Err(RecorderError::NotRunning)));
}

#[test]
fn pause_of_a_vanished_process_reports_the_signal_error() {
    // A process id far above the kernel's limit never exists, so the pause
    // signal cannot be delivered and the OS error is surfaced.
    let mut rec = RecorderSupervisor::new();
    rec.start_commit(Ok(RecorderSession { pid: 2_000_000_000, started_ms: 0 })).unwrap();
    match rec.pause_recording() {
        Err(RecorderError::Signal(m)) => assert!(!m.is_empty()),
        other => panic!("expected a signal delivery failure, got {:?}", other),
    }
    match rec.resume_recording() {
        Err(RecorderError::Signal(m)) => assert!(!m.is_empty()),
        other => panic!("expected a signal delivery failure, got {:?}", other),
    }
}
