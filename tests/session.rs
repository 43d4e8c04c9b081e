use drop_capture::capture::{
    crop_and_take_screencast, crop_and_take_screenshot, screencast, screenshot, SCRATCH_ID_LENGTH,
};
use drop_capture::commands::AudioDevice;
use drop_capture::config::DropConfig;
use drop_capture::session::{select_strategy, Action, CaptureError, Event, Phase, Platform, Strategy};

fn config() -> DropConfig {
    DropConfig {
        dir: "/tmp/drops".to_string(),
        host: None,
        aws_bucket: None,
        aws_key: None,
        aws_secret: None,
        filename_strategy: "prepend".to_string(),
        unique_length: 10,
        transparent: false,
        tray_icon: true,
        stop_key: None,
        notifications: false,
        audio: false,
        audio_source: "mic".to_string(),
        border: false,
        delay: 0,
        display_server: "x11".to_string(),
        extension: None,
        filename: None,
        local: true,
        mouse: false,
        video_format: "mp4".to_string(),
        verbose: false,
    }
}

fn selected(output: &str) -> Event {
    Event::SelectorExited { success: true, output: output.to_string() }
}

#[test]
fn still_capture_end_to_end() {
    let mut s = screenshot("/tmp/drops/shot.png", &config());
    assert_eq!(s.strategy, Strategy::StillX11);
    assert_eq!(s.result(), None);
    assert_eq!(s.step(Event::Start), Action::RunSelector);
    assert_eq!(s.selector_command().unwrap().program, "slop");
    assert_eq!(s.step(selected("100 50 200 300 200x300+100+50 1")), Action::RunCapture);
    let c = s.capture_command().unwrap();
    assert_eq!(c.program, "import");
    assert_eq!(c.args, vec!["-window", "root", "-crop", "200x300+100+50", "/tmp/drops/shot.png"]);
    assert_eq!(s.step(Event::Exited { success: true }), Action::Finish);
    assert_eq!(s.result(), Some(Ok("/tmp/drops/shot.png".to_string())));
}

#[test]
fn still_capture_failure_and_delay() {
    let mut cfg = config();
    cfg.delay = 2;
    let mut s = screenshot("o.png", &cfg);
    s.step(Event::Start);
    assert_eq!(s.step(selected("1 2 3 4 3x4+1+2 9")), Action::Sleep(2));
    assert_eq!(s.phase, Phase::Delaying);
    assert_eq!(s.step(Event::Slept), Action::RunCapture);
    assert_eq!(s.step(Event::Exited { success: false }), Action::Finish);
    assert_eq!(s.result(), Some(Err(CaptureError::ToolExecutionFailure)));
}

#[test]
fn selection_cancel_starts_nothing() {
    let mut s = screencast("o.mp4", &config(), ":0");
    s.step(Event::Start);
    assert_eq!(s.step(selected("1 2 3 4 g Cancel")), Action::Finish);
    assert_eq!(s.result(), Some(Err(CaptureError::SelectionCancelled)));
    for e in [Event::Slept, Event::Spawned, Event::StopRequested, Event::Start] {
        assert_eq!(s.step(e), Action::Finish);
    }
    assert_eq!(s.result(), Some(Err(CaptureError::SelectionCancelled)));
}

#[test]
fn selection_errors() {
    let mut s = screenshot("o.png", &config());
    s.step(Event::Start);
    assert_eq!(s.step(selected("1 2 3")), Action::Finish);
    assert_eq!(s.result(), Some(Err(CaptureError::MalformedSelection)));

    let mut s = screenshot("o.png", &config());
    s.step(Event::Start);
    assert_eq!(s.step(Event::SelectorExited { success: false, output: String::new() }), Action::Finish);
    assert_eq!(s.result(), Some(Err(CaptureError::ToolExecutionFailure)));

    let mut s = screenshot("o.png", &config());
    s.step(Event::Start);
    assert_eq!(s.step(Event::SpawnFailed), Action::Finish);
    assert_eq!(s.result(), Some(Err(CaptureError::ToolSpawnFailure)));
}

#[test]
fn immediate_stop_still_completes_video() {
    let mut s = screencast("o.mp4", &config(), ":0");
    assert_eq!(s.strategy, Strategy::VideoX11);
    assert_eq!(s.step(Event::Start), Action::RunSelector);
    assert_eq!(s.step(selected("0 0 101 55 101x55+0+0 1")), Action::SpawnCapture);
    let c = s.capture_command().unwrap();
    assert!(c.args.iter().any(|a| a == "scale=100:54"));
    assert_eq!(s.step(Event::Spawned), Action::AwaitStop);
    assert_eq!(s.step(Event::StopRequested), Action::SignalTerminate);
    assert_eq!(s.step(Event::SignalSent { delivered: true }), Action::WaitForExit);
    assert_eq!(s.step(Event::Exited { success: false }), Action::Finish);
    assert_eq!(s.result(), Some(Ok("o.mp4".to_string())));
}

#[test]
fn undelivered_signal_still_waits_once() {
    let mut s = screencast("o.mp4", &config(), ":0");
    s.step(Event::Start);
    s.step(selected("0 0 10 10 10x10+0+0 1"));
    s.step(Event::Spawned);
    s.step(Event::StopRequested);
    assert_eq!(s.step(Event::Removed), Action::KeepWaiting);
    let mut waits = 0;
    let mut a = s.step(Event::SignalSent { delivered: false });
    for e in [Event::Slept, Event::Exited { success: true }, Event::Removed, Event::Spawned] {
        if a == Action::WaitForExit {
            waits += 1;
        }
        a = s.step(e);
    }
    assert_eq!(waits, 1);
    assert_eq!(s.result(), Some(Ok("o.mp4".to_string())));
}

#[test]
fn failed_wait_is_a_capture_failure() {
    let mut s = screencast("o.mp4", &config(), ":0");
    s.step(Event::Start);
    s.step(selected("0 0 10 10 10x10+0+0 1"));
    s.step(Event::Spawned);
    s.step(Event::StopRequested);
    s.step(Event::SignalSent { delivered: true });
    assert_eq!(s.step(Event::WaitFailed), Action::Finish);
    assert_eq!(s.result(), Some(Err(CaptureError::IoFailure)));
}

fn gif_session_at_transcode() -> drop_capture::session::Session {
    let mut cfg = config();
    cfg.video_format = "gif".to_string();
    let mut s = screencast("/tmp/drops/a.gif", &cfg, ":0");
    assert_eq!(s.strategy, Strategy::VideoX11Gif);
    s.step(Event::Start);
    assert_eq!(s.step(selected("1 1 20 20 20x20+1+1 1")), Action::SpawnCapture);
    assert_eq!(s.capture_command().unwrap().args.last().unwrap(), "/tmp/drops/a.pam");
    s.step(Event::Spawned);
    s.step(Event::StopRequested);
    s.step(Event::SignalSent { delivered: true });
    assert_eq!(s.step(Event::Exited { success: true }), Action::RunTranscode);
    s
}

#[test]
fn gif_scratch_directory_is_fresh() {
    let s = gif_session_at_transcode();
    let dir = s.scratch_directory();
    let prefix = "/tmp/drops/.cache/";
    assert!(dir.starts_with(prefix));
    let id = &dir[prefix.len()..];
    assert_eq!(id.len(), SCRATCH_ID_LENGTH);
    assert!(id.chars().all(|c| c.is_ascii_alphanumeric()));
    assert_eq!(s.frames_file(), "/tmp/drops/a.pam");
    let t = s.transcode_command_with(1000).unwrap();
    assert!(t.args.iter().any(|a| a == "600kiB"));
    assert!(t.args.iter().any(|a| *a == format!("registry:temporary-path={}", dir)));
}

#[test]
fn transcode_reads_available_memory() {
    let s = gif_session_at_transcode();
    if let Some(t) = s.transcode_command() {
        assert_eq!(t.program, "convert");
        let limit = t.args.iter().find(|a| a.ends_with("kiB")).unwrap();
        assert!(limit[..limit.len() - 3].parse::<u64>().is_ok());
    }
}

#[test]
fn cleanup_runs_after_failed_transcode() {
    let mut s = gif_session_at_transcode();
    assert_eq!(s.step(Event::Exited { success: false }), Action::RemoveFrames);
    assert_eq!(s.step(Event::Removed), Action::RemoveScratch);
    assert_eq!(s.step(Event::Removed), Action::Finish);
    assert_eq!(s.result(), Some(Err(CaptureError::ToolExecutionFailure)));
}

#[test]
fn cleanup_runs_after_good_transcode_and_unavailable_memory() {
    let mut s = gif_session_at_transcode();
    assert_eq!(s.step(Event::Exited { success: true }), Action::RemoveFrames);
    assert_eq!(s.step(Event::Removed), Action::RemoveScratch);
    assert_eq!(s.step(Event::Removed), Action::Finish);
    assert_eq!(s.result(), Some(Ok("/tmp/drops/a.gif".to_string())));

    let mut s = gif_session_at_transcode();
    assert_eq!(s.step(Event::Unavailable), Action::RemoveFrames);
    s.step(Event::Removed);
    s.step(Event::Removed);
    assert_eq!(s.result(), Some(Err(CaptureError::IoFailure)));

    let mut s = gif_session_at_transcode();
    assert_eq!(s.step(Event::SpawnFailed), Action::RemoveFrames);
    s.step(Event::Removed);
    s.step(Event::Removed);
    assert_eq!(s.result(), Some(Err(CaptureError::ToolSpawnFailure)));
}

#[test]
fn wayland_sessions() {
    let mut cfg = config();
    cfg.display_server = "wayland".to_string();
    let mut s = screenshot("o.png", &cfg);
    assert_eq!(s.strategy, Strategy::StillWayland);
    s.step(Event::Start);
    assert_eq!(s.selector_command().unwrap().program, "slurp");
    assert_eq!(s.step(selected("10,20 30x40\n")), Action::RunCapture);
    assert_eq!(s.capture_command().unwrap().args, vec!["-g", "10,20 30x40", "o.png"]);

    let mut v = screencast("o.mp4", &cfg, ":0");
    assert_eq!(v.strategy, Strategy::VideoWayland);
    v.step(Event::Start);
    assert_eq!(v.step(selected("10,20 30x40")), Action::SpawnCapture);
    let c = v.capture_command().unwrap();
    assert_eq!(c.program, "wf-recorder");
    assert_eq!(c.args, vec!["-g", "10,20 30x40", "--file", "o.mp4"]);
}

#[test]
fn native_sessions() {
    let mut cfg = config();
    cfg.delay = 1;
    cfg.audio = true;
    cfg.mouse = true;
    let mut s = crop_and_take_screenshot("o.png", &cfg);
    assert_eq!(s.step(Event::Start), Action::RunCapture);
    assert_eq!(s.capture_command().unwrap().args, vec!["-T", "1", "-s", "o.png"]);
    assert!(s.selector_command().is_none());

    let mut v = crop_and_take_screencast("o.mov", &cfg);
    assert_eq!(v.step(Event::Start), Action::Sleep(1));
    assert_eq!(
        v.step(Event::Slept),
        Action::StartNative { capture_cursor: true, record_audio: true }
    );
    assert!(v.capture_command().is_none());
    assert_eq!(v.step(Event::Spawned), Action::AwaitStop);
    assert_eq!(v.step(Event::StopRequested), Action::StopNative);
    assert_eq!(v.step(Event::Exited { success: true }), Action::Finish);
    assert_eq!(v.result(), Some(Ok("o.mov".to_string())));

    cfg.audio = false;
    let mut v = crop_and_take_screencast("o.mov", &cfg);
    v.step(Event::Start);
    assert_eq!(
        v.step(Event::Slept),
        Action::StartNative { capture_cursor: true, record_audio: false }
    );
}

#[test]
fn audio_setting_reaches_the_encoder() {
    let mut cfg = config();
    cfg.audio = true;
    cfg.audio_source = "desktop".to_string();
    let mut s = screencast("o.mp4", &cfg, ":0");
    assert_eq!(s.audio_device, AudioDevice::Desktop);
    s.step(Event::Start);
    s.step(selected("0 0 10 10 10x10+0+0 1"));
    let c = s.capture_command().unwrap();
    assert!(c.args.iter().any(|a| a == "pulse"));
    cfg.audio_source = "mic".to_string();
    let mut m = screencast("o.mp4", &cfg, ":0");
    m.step(Event::Start);
    m.step(selected("0 0 10 10 10x10+0+0 1"));
    assert!(m.capture_command().unwrap().args.iter().any(|a| a == "hw:0"));
}

#[test]
fn strategy_selection() {
    assert_eq!(select_strategy(Platform::Linux, false, "x11", "mp4"), Strategy::StillX11);
    assert_eq!(select_strategy(Platform::Linux, false, "wayland", "gif"), Strategy::StillWayland);
    assert_eq!(select_strategy(Platform::Linux, true, "x11", "mp4"), Strategy::VideoX11);
    assert_eq!(select_strategy(Platform::Linux, true, "x11", "gif"), Strategy::VideoX11Gif);
    assert_eq!(select_strategy(Platform::Linux, true, "wayland", "gif"), Strategy::VideoWayland);
    assert_eq!(select_strategy(Platform::MacOs, true, "x11", "mp4"), Strategy::VideoNative);
    assert_eq!(select_strategy(Platform::MacOs, false, "x11", "mp4"), Strategy::StillNative);
}

#[test]
fn events_out_of_turn_change_nothing() {
    let mut s = screencast("o.mp4", &config(), ":0");
    assert_eq!(s.step(Event::Spawned), Action::KeepWaiting);
    assert_eq!(s.phase, Phase::Idle);
    s.step(Event::Start);
    assert_eq!(s.step(Event::StopRequested), Action::KeepWaiting);
    assert_eq!(s.phase, Phase::Selecting);
}
