use vstd::prelude::*;

use crate::commands::{
    audio_args, convert_args, convert_command, ffmpeg_frames_command, ffmpeg_video_command, frames_path,
    frames_path_of, grim_command, import_command, screencapture_command, slop_args, slop_command,
    slurp_command, wf_recorder_command, x11_frames_args, x11_video_args, AudioDevice, CommandSpec,
};
use crate::config::{str_eq, DropConfig};
use crate::region::{area_result, has_cancel, parse_area, parse_selection, selection_result,
    well_formed, Region, SelectionError,
};
use crate::text::{decimal, words};

verus! {

/// The operating system family the capture runs on.
#[derive(Clone, Copy, Debug, PartialEq, Eq, Structural)]
pub enum Platform {
    Linux,
    MacOs,
}

/// How one capture is made.
#[derive(Clone, Copy, Debug, PartialEq, Eq, Structural)]
pub enum Strategy {
    /// A still image of a region chosen on X11.
    StillX11,
    /// A still image of a region chosen on Wayland.
    StillWayland,
    /// A still image by the platform's own tool, which selects and waits by itself.
    StillNative,
    /// A video of a region chosen on X11, encoded as it is recorded.
    VideoX11,
    /// A video of a region chosen on X11, recorded as raw frames and then transcoded
    /// into an animated image.
    VideoX11Gif,
    /// A video of a region chosen on Wayland.
    VideoWayland,
    /// A video by the platform's capture session, started and stopped by calls.
    VideoNative,
}

pub open spec fn strategy_for(
    platform: Platform,
    is_video: bool,
    display_server: Seq<char>,
    video_format: Seq<char>,
) -> Strategy {
    match platform {
        Platform::MacOs => if is_video {
            Strategy::VideoNative
        } else {
            Strategy::StillNative
        },
        Platform::Linux => if display_server == "wayland"@ {
            if is_video {
                Strategy::VideoWayland
            } else {
                Strategy::StillWayland
            }
        } else if !is_video {
            Strategy::StillX11
        } else if video_format == "gif"@ {
            Strategy::VideoX11Gif
        } else {
            Strategy::VideoX11
        },
    }
}

/// Picks the strategy from the platform, the kind of capture, the display server
/// and the video format.
pub fn select_strategy(
    platform: Platform,
    is_video: bool,
    display_server: &str,
    video_format: &str,
) -> (r: Strategy)
    ensures
        r == strategy_for(platform, is_video, display_server@, video_format@),
{
    match platform {
        Platform::MacOs => if is_video {
            Strategy::VideoNative
        } else {
            Strategy::StillNative
        },
        Platform::Linux => if str_eq(display_server, "wayland") {
            if is_video {
                Strategy::VideoWayland
            } else {
                Strategy::StillWayland
            }
        } else if !is_video {
            Strategy::StillX11
        } else if str_eq(video_format, "gif") {
            Strategy::VideoX11Gif
        } else {
            Strategy::VideoX11
        },
    }
}

pub open spec fn selects_on_x11(st: Strategy) -> bool {
    st == Strategy::StillX11 || st == Strategy::VideoX11 || st == Strategy::VideoX11Gif
}

pub open spec fn selects_on_wayland(st: Strategy) -> bool {
    st == Strategy::StillWayland || st == Strategy::VideoWayland
}

pub open spec fn is_still(st: Strategy) -> bool {
    st == Strategy::StillX11 || st == Strategy::StillWayland || st == Strategy::StillNative
}

fn selects_on_x11_exec(st: Strategy) -> (r: bool)
    ensures
        r == selects_on_x11(st),
{
    match st {
        Strategy::StillX11 | Strategy::VideoX11 | Strategy::VideoX11Gif => true,
        _ => false,
    }
}

fn selects_on_wayland_exec(st: Strategy) -> (r: bool)
    ensures
        r == selects_on_wayland(st),
{
    match st {
        Strategy::StillWayland | Strategy::VideoWayland => true,
        _ => false,
    }
}

fn is_still_exec(st: Strategy) -> (r: bool)
    ensures
        r == is_still(st),
{
    match st {
        Strategy::StillX11 | Strategy::StillWayland | Strategy::StillNative => true,
        _ => false,
    }
}

/// Where a session stands.
#[derive(Clone, Copy, Debug, PartialEq, Eq, Structural)]
pub enum Phase {
    Idle,
    Selecting,
    Delaying,
    Capturing,
    Recording,
    AwaitingStop,
    Terminating,
    Reaping,
    Closing,
    Transcoding,
    RemovingFrames,
    RemovingScratch,
    Finished,
}

/// Why a session gave no file.
#[derive(Clone, Copy, Debug, PartialEq, Eq, Structural)]
pub enum CaptureError {
    /// The user backed out of the selection: an outcome, not a fault.
    SelectionCancelled,
    /// The selection tool's output could not be read.
    MalformedSelection,
    /// An external tool could not be started.
    ToolSpawnFailure,
    /// An external tool ran and reported failure.
    ToolExecutionFailure,
    /// Waiting for a process, or preparing a resource, failed.
    IoFailure,
}

/// What the driver of a session is to do next, and report back as an event.
#[derive(Clone, Copy, Debug, PartialEq, Eq, Structural)]
pub enum Action {
    /// Run the selector command, read its output: `SelectorExited`, or `SpawnFailed`.
    RunSelector,
    /// Sleep this many seconds: `Slept`.
    Sleep(u64),
    /// Run the capture command to its end: `Exited`, `SpawnFailed` or `WaitFailed`.
    RunCapture,
    /// Start the capture command and leave it running: `Spawned` or `SpawnFailed`.
    SpawnCapture,
    /// Start the native capture session: `Spawned` or `SpawnFailed`.
    StartNative { capture_cursor: bool, record_audio: bool },
    /// Block until the user asks to stop: `StopRequested`.
    AwaitStop,
    /// Ask the running capture process to terminate: `SignalSent`.
    SignalTerminate,
    /// Wait for the capture process to exit: `Exited` or `WaitFailed`.
    WaitForExit,
    /// Stop the native capture session: `Exited`.
    StopNative,
    /// Create the scratch directory and run the transcode command to its end:
    /// `Exited`, `SpawnFailed`, `WaitFailed`, or `Unavailable` where neither the
    /// command nor the directory could be prepared.
    RunTranscode,
    /// Remove the raw frames file: `Removed`.
    RemoveFrames,
    /// Remove the scratch directory: `Removed`.
    RemoveScratch,
    /// The session is over; its result is final.
    Finish,
    /// The event answered nothing that is pending: carry on waiting for it.
    KeepWaiting,
}

/// What the driver reports back.
pub enum Event {
    Start,
    SelectorExited { success: bool, output: String },
    Slept,
    Spawned,
    SpawnFailed,
    Exited { success: bool },
    WaitFailed,
    StopRequested,
    SignalSent { delivered: bool },
    /// A removal was attempted, whatever it found.
    Removed,
    Unavailable,
}

/// An event as the session's decisions see it: a selector's output read to its outcome.
#[derive(Clone, Copy, Debug, PartialEq, Eq, Structural)]
pub enum Input {
    Start,
    SelectedRegion,
    SelectionCancelled,
    SelectionMalformed,
    SelectorFailed,
    Slept,
    Spawned,
    SpawnFailed,
    Exited(bool),
    WaitFailed,
    StopRequested,
    SignalSent(bool),
    Removed,
    Unavailable,
}

/// The outcome of a selector's output for a strategy.
pub open spec fn selection_input(st: Strategy, output: Seq<char>) -> Input {
    let ws = words(output);
    if has_cancel(ws) {
        Input::SelectionCancelled
    } else if selects_on_x11(st) {
        if well_formed(ws) {
            Input::SelectedRegion
        } else {
            Input::SelectionMalformed
        }
    } else if ws.len() == 2 {
        Input::SelectedRegion
    } else {
        Input::SelectionMalformed
    }
}

pub open spec fn input_of(st: Strategy, e: Event) -> Input {
    match e {
        Event::Start => Input::Start,
        Event::SelectorExited { success, output } => if success {
            selection_input(st, output@)
        } else {
            Input::SelectorFailed
        },
        Event::Slept => Input::Slept,
        Event::Spawned => Input::Spawned,
        Event::SpawnFailed => Input::SpawnFailed,
        Event::Exited { success } => Input::Exited(success),
        Event::WaitFailed => Input::WaitFailed,
        Event::StopRequested => Input::StopRequested,
        Event::SignalSent { delivered } => Input::SignalSent(delivered),
        Event::Removed => Input::Removed,
        Event::Unavailable => Input::Unavailable,
    }
}

/// Where the capture itself starts.
pub open spec fn start_capture(st: Strategy, mouse: bool, audio: bool) -> (Phase, Action) {
    if is_still(st) {
        (Phase::Capturing, Action::RunCapture)
    } else if st == Strategy::VideoNative {
        (Phase::Recording, Action::StartNative { capture_cursor: mouse, record_audio: audio })
    } else {
        (Phase::Recording, Action::SpawnCapture)
    }
}

/// After the selection: the startup delay where there is one, then the capture.
pub open spec fn after_selection(st: Strategy, delay: u64, mouse: bool, audio: bool) -> (
    Phase,
    Action,
) {
    if delay > 0 {
        (Phase::Delaying, Action::Sleep(delay))
    } else {
        start_capture(st, mouse, audio)
    }
}

pub open spec fn with_failure(pa: (Phase, Action), f: Option<CaptureError>) -> (
    Phase,
    Option<CaptureError>,
    Action,
) {
    (pa.0, f, pa.1)
}

pub open spec fn finished_with(e: CaptureError) -> (Phase, Option<CaptureError>, Action) {
    (Phase::Finished, Some(e), Action::Finish)
}

/// The session's decisions: from a phase, the failure recorded so far and an input,
/// the next phase, failure and action.
pub open spec fn transition(
    st: Strategy,
    delay: u64,
    mouse: bool,
    audio: bool,
    p: Phase,
    f: Option<CaptureError>,
    i: Input,
) -> (Phase, Option<CaptureError>, Action) {
    let stay = (p, f, Action::KeepWaiting);
    match p {
        Phase::Idle => match i {
            Input::Start => if st == Strategy::StillNative {
                (Phase::Capturing, f, Action::RunCapture)
            } else if st == Strategy::VideoNative {
                with_failure(after_selection(st, delay, mouse, audio), f)
            } else {
                (Phase::Selecting, f, Action::RunSelector)
            },
            _ => stay,
        },
        Phase::Selecting => match i {
            Input::SelectedRegion => with_failure(after_selection(st, delay, mouse, audio), f),
            Input::SelectionCancelled => finished_with(CaptureError::SelectionCancelled),
            Input::SelectionMalformed => finished_with(CaptureError::MalformedSelection),
            Input::SelectorFailed => finished_with(CaptureError::ToolExecutionFailure),
            Input::SpawnFailed => finished_with(CaptureError::ToolSpawnFailure),
            _ => stay,
        },
        Phase::Delaying => match i {
            Input::Slept => with_failure(start_capture(st, mouse, audio), f),
            _ => stay,
        },
        Phase::Capturing => match i {
            Input::Exited(ok) => if ok {
                (Phase::Finished, f, Action::Finish)
            } else {
                finished_with(CaptureError::ToolExecutionFailure)
            },
            Input::SpawnFailed => finished_with(CaptureError::ToolSpawnFailure),
            Input::WaitFailed => finished_with(CaptureError::IoFailure),
            _ => stay,
        },
        Phase::Recording => match i {
            Input::Spawned => (Phase::AwaitingStop, f, Action::AwaitStop),
            Input::SpawnFailed => finished_with(CaptureError::ToolSpawnFailure),
            _ => stay,
        },
        Phase::AwaitingStop => match i {
            Input::StopRequested => if st == Strategy::VideoNative {
                (Phase::Closing, f, Action::StopNative)
            } else {
                (Phase::Terminating, f, Action::SignalTerminate)
            },
            _ => stay,
        },
        Phase::Terminating => match i {
            Input::SignalSent(_) => (Phase::Reaping, f, Action::WaitForExit),
            _ => stay,
        },
        Phase::Reaping => match i {
            Input::Exited(_) => if st == Strategy::VideoX11Gif {
                (Phase::Transcoding, f, Action::RunTranscode)
            } else {
                (Phase::Finished, f, Action::Finish)
            },
            Input::WaitFailed => if st == Strategy::VideoX11Gif {
                (Phase::RemovingFrames, Some(CaptureError::IoFailure), Action::RemoveFrames)
            } else {
                finished_with(CaptureError::IoFailure)
            },
            _ => stay,
        },
        Phase::Closing => match i {
            Input::Exited(ok) => if ok {
                (Phase::Finished, f, Action::Finish)
            } else {
                finished_with(CaptureError::ToolExecutionFailure)
            },
            _ => stay,
        },
        Phase::Transcoding => match i {
            Input::Exited(ok) => if ok {
                (Phase::RemovingFrames, f, Action::RemoveFrames)
            } else {
                (
                    Phase::RemovingFrames,
                    Some(CaptureError::ToolExecutionFailure),
                    Action::RemoveFrames,
                )
            },
            Input::SpawnFailed => (
                Phase::RemovingFrames,
                Some(CaptureError::ToolSpawnFailure),
                Action::RemoveFrames,
            ),
            Input::WaitFailed => (
                Phase::RemovingFrames,
                Some(CaptureError::IoFailure),
                Action::RemoveFrames,
            ),
            Input::Unavailable => (
                Phase::RemovingFrames,
                Some(CaptureError::IoFailure),
                Action::RemoveFrames,
            ),
            _ => stay,
        },
        Phase::RemovingFrames => match i {
            Input::Removed => (Phase::RemovingScratch, f, Action::RemoveScratch),
            _ => stay,
        },
        Phase::RemovingScratch => match i {
            Input::Removed => (Phase::Finished, f, Action::Finish),
            _ => stay,
        },
        Phase::Finished => (Phase::Finished, f, Action::Finish),
    }
}

fn start_capture_exec(st: Strategy, mouse: bool, audio: bool) -> (r: (Phase, Action))
    ensures
        r == start_capture(st, mouse, audio),
{
    if is_still_exec(st) {
        (Phase::Capturing, Action::RunCapture)
    } else if st == Strategy::VideoNative {
        (Phase::Recording, Action::StartNative { capture_cursor: mouse, record_audio: audio })
    } else {
        (Phase::Recording, Action::SpawnCapture)
    }
}

fn after_selection_exec(st: Strategy, delay: u64, mouse: bool, audio: bool) -> (r: (Phase, Action))
    ensures
        r == after_selection(st, delay, mouse, audio),
{
    if delay > 0 {
        (Phase::Delaying, Action::Sleep(delay))
    } else {
        start_capture_exec(st, mouse, audio)
    }
}

/// The session's decisions, executable.
pub fn decide(
    st: Strategy,
    delay: u64,
    mouse: bool,
    audio: bool,
    p: Phase,
    f: Option<CaptureError>,
    i: Input,
) -> (r: (Phase, Option<CaptureError>, Action))
    ensures
        r == transition(st, delay, mouse, audio, p, f, i),
{
    let stay = (p, f, Action::KeepWaiting);
    match p {
        Phase::Idle => match i {
            Input::Start => if st == Strategy::StillNative {
                (Phase::Capturing, f, Action::RunCapture)
            } else if st == Strategy::VideoNative {
                let (q, a) = after_selection_exec(st, delay, mouse, audio);
                (q, f, a)
            } else {
                (Phase::Selecting, f, Action::RunSelector)
            },
            _ => stay,
        },
        Phase::Selecting => match i {
            Input::SelectedRegion => {
                let (q, a) = after_selection_exec(st, delay, mouse, audio);
                (q, f, a)
            },
            Input::SelectionCancelled => (
                Phase::Finished,
                Some(CaptureError::SelectionCancelled),
                Action::Finish,
            ),
            Input::SelectionMalformed => (
                Phase::Finished,
                Some(CaptureError::MalformedSelection),
                Action::Finish,
            ),
            Input::SelectorFailed => (
                Phase::Finished,
                Some(CaptureError::ToolExecutionFailure),
                Action::Finish,
            ),
            Input::SpawnFailed => (
                Phase::Finished,
                Some(CaptureError::ToolSpawnFailure),
                Action::Finish,
            ),
            _ => stay,
        },
        Phase::Delaying => match i {
            Input::Slept => {
                let (q, a) = start_capture_exec(st, mouse, audio);
                (q, f, a)
            },
            _ => stay,
        },
        Phase::Capturing => match i {
            Input::Exited(ok) => if ok {
                (Phase::Finished, f, Action::Finish)
            } else {
                (Phase::Finished, Some(CaptureError::ToolExecutionFailure), Action::Finish)
            },
            Input::SpawnFailed => (
                Phase::Finished,
                Some(CaptureError::ToolSpawnFailure),
                Action::Finish,
            ),
            Input::WaitFailed => (Phase::Finished, Some(CaptureError::IoFailure), Action::Finish),
            _ => stay,
        },
        Phase::Recording => match i {
            Input::Spawned => (Phase::AwaitingStop, f, Action::AwaitStop),
            Input::SpawnFailed => (
                Phase::Finished,
                Some(CaptureError::ToolSpawnFailure),
                Action::Finish,
            ),
            _ => stay,
        },
        Phase::AwaitingStop => match i {
            Input::StopRequested => if st == Strategy::VideoNative {
                (Phase::Closing, f, Action::StopNative)
            } else {
                (Phase::Terminating, f, Action::SignalTerminate)
            },
            _ => stay,
        },
        Phase::Terminating => match i {
            Input::SignalSent(_) => (Phase::Reaping, f, Action::WaitForExit),
            _ => stay,
        },
        Phase::Reaping => match i {
            Input::Exited(_) => if st == Strategy::VideoX11Gif {
                (Phase::Transcoding, f, Action::RunTranscode)
            } else {
                (Phase::Finished, f, Action::Finish)
            },
            Input::WaitFailed => if st == Strategy::VideoX11Gif {
                (Phase::RemovingFrames, Some(CaptureError::IoFailure), Action::RemoveFrames)
            } else {
                (Phase::Finished, Some(CaptureError::IoFailure), Action::Finish)
            },
            _ => stay,
        },
        Phase::Closing => match i {
            Input::Exited(ok) => if ok {
                (Phase::Finished, f, Action::Finish)
            } else {
                (Phase::Finished, Some(CaptureError::ToolExecutionFailure), Action::Finish)
            },
            _ => stay,
        },
        Phase::Transcoding => match i {
            Input::Exited(ok) => if ok {
                (Phase::RemovingFrames, f, Action::RemoveFrames)
            } else {
                (
                    Phase::RemovingFrames,
                    Some(CaptureError::ToolExecutionFailure),
                    Action::RemoveFrames,
                )
            },
            Input::SpawnFailed => (
                Phase::RemovingFrames,
                Some(CaptureError::ToolSpawnFailure),
                Action::RemoveFrames,
            ),
            Input::WaitFailed => (
                Phase::RemovingFrames,
                Some(CaptureError::IoFailure),
                Action::RemoveFrames,
            ),
            Input::Unavailable => (
                Phase::RemovingFrames,
                Some(CaptureError::IoFailure),
                Action::RemoveFrames,
            ),
            _ => stay,
        },
        Phase::RemovingFrames => match i {
            Input::Removed => (Phase::RemovingScratch, f, Action::RemoveScratch),
            _ => stay,
        },
        Phase::RemovingScratch => match i {
            Input::Removed => (Phase::Finished, f, Action::Finish),
            _ => stay,
        },
        Phase::Finished => (Phase::Finished, f, Action::Finish),
    }
}

pub open spec fn device_for(source: Seq<char>) -> AudioDevice {
    if source == "desktop"@ {
        AudioDevice::Desktop
    } else {
        AudioDevice::Mic
    }
}

/// One capture from start to result, driven by events.
pub struct Session {
    pub strategy: Strategy,
    pub phase: Phase,
    pub failure: Option<CaptureError>,
    pub out_path: String,
    /// The region chosen on X11.
    pub region: Option<Region>,
    /// The area chosen on Wayland, in the selector's notation.
    pub area: Option<String>,
    /// The X11 display to grab from.
    pub display: String,
    /// The transcoder's scratch directory.
    pub scratch: String,
    pub delay: u64,
    pub transparent: bool,
    pub border: bool,
    pub mouse: bool,
    pub audio: bool,
    pub audio_device: AudioDevice,
    pub verbose: bool,
}

/// The audio input that a session's capture attaches, if any.
pub open spec fn audio_input(s: Session) -> Option<AudioDevice> {
    if s.strategy == Strategy::VideoX11 && s.audio {
        Some(s.audio_device)
    } else {
        None
    }
}

/// The selector a session runs: program and arguments.
pub open spec fn selector_plan(s: Session) -> Option<(Seq<char>, Seq<Seq<char>>)> {
    if selects_on_x11(s.strategy) {
        Some(("slop"@, slop_args(s.transparent)))
    } else if selects_on_wayland(s.strategy) {
        Some(("slurp"@, Seq::empty()))
    } else {
        None
    }
}

/// The capture command of a session: program and arguments, once what it needs is known.
pub open spec fn capture_plan(s: Session) -> Option<(Seq<char>, Seq<Seq<char>>)> {
    match s.strategy {
        Strategy::StillX11 => match s.region {
            Some(r) => Some(("import"@, seq!["-window"@, "root"@, "-crop"@, r.geometry@, s.out_path@])),
            None => None,
        },
        Strategy::StillWayland => match s.area {
            Some(a) => Some(("grim"@, seq!["-g"@, a@, s.out_path@])),
            None => None,
        },
        Strategy::StillNative => Some(
            (
                "screencapture"@,
                (if s.delay > 0 {
                    seq!["-T"@, decimal(s.delay as nat)]
                } else {
                    Seq::empty()
                }) + seq!["-s"@, s.out_path@],
            ),
        ),
        Strategy::VideoX11 => match s.region {
            Some(r) => Some(
                (
                    "ffmpeg"@,
                    x11_video_args(
                        r.x as nat,
                        r.y as nat,
                        r.width as nat,
                        r.height as nat,
                        s.display@,
                        s.border,
                        s.mouse,
                        audio_input(s),
                        s.out_path@,
                    ),
                ),
            ),
            None => None,
        },
        Strategy::VideoX11Gif => match s.region {
            Some(r) => Some(
                (
                    "ffmpeg"@,
                    x11_frames_args(
                        r.x as nat,
                        r.y as nat,
                        r.width as nat,
                        r.height as nat,
                        s.display@,
                        s.border,
                        s.mouse,
                        frames_path_of(s.out_path@),
                    ),
                ),
            ),
            None => None,
        },
        Strategy::VideoWayland => match s.area {
            Some(a) => Some(("wf-recorder"@, seq!["-g"@, a@, "--file"@, s.out_path@])),
            None => None,
        },
        Strategy::VideoNative => None,
    }
}

/// The transcode command of a session, given the available memory in KiB.
pub open spec fn transcode_plan(s: Session, avail_kib: nat) -> Option<(Seq<char>, Seq<Seq<char>>)> {
    if s.strategy == Strategy::VideoX11Gif {
        Some(
            (
                "convert"@,
                convert_args(frames_path_of(s.out_path@), s.out_path@, avail_kib, s.scratch@),
            ),
        )
    } else {
        None
    }
}

pub open spec fn plan_of(c: CommandSpec) -> (Seq<char>, Seq<Seq<char>>) {
    (c.program_view(), c.args_view())
}

pub open spec fn matches_plan(r: Option<CommandSpec>, plan: Option<(Seq<char>, Seq<Seq<char>>)>) -> bool {
    match r {
        Some(c) => plan == Some(plan_of(c)),
        None => plan is None,
    }
}

/// What a step keeps of the selector's output: the region or area it read, where the
/// session was selecting and the selection succeeded; otherwise both stay as they were.
pub open spec fn selection_kept(before: Session, after: Session, e: Event) -> bool {
    match e {
        Event::SelectorExited { success, output } => if before.phase == Phase::Selecting && success
            && selection_input(before.strategy, output@) == Input::SelectedRegion {
            if selects_on_x11(before.strategy) {
                &&& after.area == before.area
                &&& after.region is Some
                &&& selection_result(output@, Ok(after.region->Some_0))
            } else {
                &&& after.region == before.region
                &&& after.area is Some
                &&& area_result(output@, Ok(after.area->Some_0))
            }
        } else {
            after.region == before.region && after.area == before.area
        },
        _ => after.region == before.region && after.area == before.area,
    }
}

/// Everything of a session but its phase, failure and selection stays as it was.
pub open spec fn same_settings(a: Session, b: Session) -> bool {
    &&& a.strategy == b.strategy
    &&& a.out_path == b.out_path
    &&& a.display == b.display
    &&& a.scratch == b.scratch
    &&& a.delay == b.delay
    &&& a.transparent == b.transparent
    &&& a.border == b.border
    &&& a.mouse == b.mouse
    &&& a.audio == b.audio
    &&& a.audio_device == b.audio_device
    &&& a.verbose == b.verbose
}

/// Relies on sys-info's `mem_info`: the `avail` field, in KiB, where the system
/// reports it. The value depends on the machine at the time of the call.
#[verifier::external_body]
fn available_memory_kib() -> (r: Option<u64>) {
    sys_info::mem_info().ok().map(|m| m.avail)
}

/// A session that has not started, made with these settings.
pub open spec fn fresh(
    r: Session,
    strategy: Strategy,
    out_path: Seq<char>,
    config: DropConfig,
    display: Seq<char>,
    scratch: Seq<char>,
) -> bool {
    &&& r.strategy == strategy
    &&& r.phase == Phase::Idle
    &&& r.failure is None
    &&& r.out_path@ == out_path
    &&& r.region is None
    &&& r.area is None
    &&& r.display@ == display
    &&& r.scratch@ == scratch
    &&& r.delay == config.delay
    &&& r.transparent == config.transparent
    &&& r.border == config.border
    &&& r.mouse == config.mouse
    &&& r.audio == config.audio
    &&& r.audio_device == device_for(config.audio_source@)
    &&& r.verbose == config.verbose
}

impl Session {
    /// A session in its first phase, with the settings it needs from `config`.
    pub fn new(
        strategy: Strategy,
        out_path: &str,
        config: &DropConfig,
        display: &str,
        scratch: &str,
    ) -> (r: Session)
        ensures
            fresh(r, strategy, out_path@, *config, display@, scratch@),
    {
        let audio_device = if str_eq(config.audio_source.as_str(), "desktop") {
            AudioDevice::Desktop
        } else {
            AudioDevice::Mic
        };
        Session {
            strategy,
            phase: Phase::Idle,
            failure: None,
            out_path: String::from_str(out_path),
            region: None,
            area: None,
            display: String::from_str(display),
            scratch: String::from_str(scratch),
            delay: config.delay,
            transparent: config.transparent,
            border: config.border,
            mouse: config.mouse,
            audio: config.audio,
            audio_device,
            verbose: config.verbose,
        }
    }

    /// Takes in what the driver reports and says what to do next.
    pub fn step(&mut self, e: Event) -> (r: Action)
        ensures
            (final(self).phase, final(self).failure, r) == transition(
                old(self).strategy,
                old(self).delay,
                old(self).mouse,
                old(self).audio,
                old(self).phase,
                old(self).failure,
                input_of(old(self).strategy, e),
            ),
            same_settings(*final(self), *old(self)),
            selection_kept(*old(self), *final(self), e),
    {
        let ghost e0 = e;
        let input = match e {
            Event::Start => Input::Start,
            Event::SelectorExited { success, output } => {
                if !success {
                    Input::SelectorFailed
                } else if selects_on_x11_exec(self.strategy) {
                    match parse_selection(output.as_str()) {
                        Ok(reg) => {
                            if self.phase == Phase::Selecting {
                                self.region = Some(reg);
                            }
                            Input::SelectedRegion
                        },
                        Err(SelectionError::Cancelled) => Input::SelectionCancelled,
                        Err(SelectionError::Malformed) => Input::SelectionMalformed,
                    }
                } else {
                    match parse_area(output.as_str()) {
                        Ok(a) => {
                            if self.phase == Phase::Selecting {
                                self.area = Some(a);
                            }
                            Input::SelectedRegion
                        },
                        Err(SelectionError::Cancelled) => Input::SelectionCancelled,
                        Err(SelectionError::Malformed) => Input::SelectionMalformed,
                    }
                }
            },
            Event::Slept => Input::Slept,
            Event::Spawned => Input::Spawned,
            Event::SpawnFailed => Input::SpawnFailed,
            Event::Exited { success } => Input::Exited(success),
            Event::WaitFailed => Input::WaitFailed,
            Event::StopRequested => Input::StopRequested,
            Event::SignalSent { delivered } => Input::SignalSent(delivered),
            Event::Removed => Input::Removed,
            Event::Unavailable => Input::Unavailable,
        };
        assert(input == input_of(old(self).strategy, e0));
        let (p, f, a) = decide(
            self.strategy,
            self.delay,
            self.mouse,
            self.audio,
            self.phase,
            self.failure,
            input,
        );
        self.phase = p;
        self.failure = f;
        a
    }

    /// The selector to run for `RunSelector`.
    pub fn selector_command(&self) -> (r: Option<CommandSpec>)
        ensures
            matches_plan(r, selector_plan(*self)),
    {
        if selects_on_x11_exec(self.strategy) {
            Some(slop_command(self.transparent))
        } else if selects_on_wayland_exec(self.strategy) {
            Some(slurp_command())
        } else {
            None
        }
    }

    /// The capture command for `RunCapture` and `SpawnCapture`.
    pub fn capture_command(&self) -> (r: Option<CommandSpec>)
        ensures
            matches_plan(r, capture_plan(*self)),
    {
        let out = self.out_path.as_str();
        match self.strategy {
            Strategy::StillX11 => match &self.region {
                Some(reg) => Some(import_command(reg.geometry.as_str(), out)),
                None => None,
            },
            Strategy::StillWayland => match &self.area {
                Some(a) => Some(grim_command(a.as_str(), out)),
                None => None,
            },
            Strategy::StillNative => Some(screencapture_command(self.delay, out)),
            Strategy::VideoX11 => match &self.region {
                Some(reg) => {
                    let audio = if self.audio {
                        Some(self.audio_device)
                    } else {
                        None
                    };
                    Some(
                        ffmpeg_video_command(
                            reg,
                            self.display.as_str(),
                            self.border,
                            self.mouse,
                            audio,
                            out,
                        ),
                    )
                },
                None => None,
            },
            Strategy::VideoX11Gif => match &self.region {
                Some(reg) => {
                    let frames = frames_path(out);
                    Some(
                        ffmpeg_frames_command(
                            reg,
                            self.display.as_str(),
                            self.border,
                            self.mouse,
                            frames.as_str(),
                        ),
                    )
                },
                None => None,
            },
            Strategy::VideoWayland => match &self.area {
                Some(a) => Some(wf_recorder_command(a.as_str(), out)),
                None => None,
            },
            Strategy::VideoNative => None,
        }
    }

    /// The transcode command for the available memory `avail_kib`.
    pub fn transcode_command_with(&self, avail_kib: u64) -> (r: Option<CommandSpec>)
        ensures
            matches_plan(r, transcode_plan(*self, avail_kib as nat)),
    {
        if self.strategy == Strategy::VideoX11Gif {
            let out = self.out_path.as_str();
            let frames = frames_path(out);
            Some(convert_command(frames.as_str(), out, avail_kib, self.scratch.as_str()))
        } else {
            None
        }
    }

    /// The transcode command for `RunTranscode`, sized by the memory available now;
    /// none where the system does not say how much that is.
    pub fn transcode_command(&self) -> (r: Option<CommandSpec>)
        ensures
            match r {
                Some(c) => exists|a: nat| transcode_plan(*self, a) == Some(plan_of(c)),
                None => true,
            },
            self.strategy != Strategy::VideoX11Gif ==> r is None,
    {
        match available_memory_kib() {
            Some(avail) => self.transcode_command_with(avail),
            None => None,
        }
    }

    /// The raw frames file that `RemoveFrames` removes.
    pub fn frames_file(&self) -> (r: String)
        ensures
            r@ == frames_path_of(self.out_path@),
    {
        frames_path(self.out_path.as_str())
    }

    /// The scratch directory that `RemoveScratch` removes.
    pub fn scratch_directory(&self) -> (r: String)
        ensures
            r@ == self.scratch@,
    {
        self.scratch.clone()
    }

    /// The result once the session has finished: the output path, or why there is none.
    pub fn result(&self) -> (r: Option<Result<String, CaptureError>>)
        ensures
            match r {
                None => self.phase != Phase::Finished,
                Some(Ok(p)) => self.phase == Phase::Finished && self.failure is None && p@
                    == self.out_path@,
                Some(Err(e)) => self.phase == Phase::Finished && self.failure == Some(e),
            },
    {
        if self.phase != Phase::Finished {
            return None;
        }
        match self.failure {
            Some(e) => Some(Err(e)),
            None => Some(Ok(self.out_path.clone())),
        }
    }
}

/// Whether an action starts a capture.
pub open spec fn starts_capture(a: Action) -> bool {
    a == Action::RunCapture || a == Action::SpawnCapture || a is StartNative
}

/// A finished session stays finished with the same outcome, whatever it is told,
/// and starts nothing more.
pub proof fn lemma_finished_is_final(
    st: Strategy,
    delay: u64,
    mouse: bool,
    audio: bool,
    f: Option<CaptureError>,
    i: Input,
)
    ensures
        transition(st, delay, mouse, audio, Phase::Finished, f, i) == (
            Phase::Finished,
            f,
            Action::Finish,
        ),
        !starts_capture(transition(st, delay, mouse, audio, Phase::Finished, f, i).2),
{
}

/// A selector output with a `Cancel` word, whatever the other words are, ends the
/// session as cancelled, and no capture is started after it.
pub proof fn lemma_cancel_ends_session(
    st: Strategy,
    delay: u64,
    mouse: bool,
    audio: bool,
    f: Option<CaptureError>,
    output: Seq<char>,
)
    requires
        has_cancel(words(output)),
    ensures
        transition(st, delay, mouse, audio, Phase::Selecting, f, selection_input(st, output)) == (
            Phase::Finished,
            Some(CaptureError::SelectionCancelled),
            Action::Finish,
        ),
        forall|i: Input|
            !starts_capture(
                #[trigger] transition(
                    st,
                    delay,
                    mouse,
                    audio,
                    Phase::Finished,
                    Some(CaptureError::SelectionCancelled),
                    i,
                ).2,
            ),
{
}

/// The phases after the capture process has been waited for.
pub open spec fn waits_done(p: Phase) -> bool {
    p == Phase::Transcoding || p == Phase::RemovingFrames || p == Phase::RemovingScratch || p
        == Phase::Finished
}

pub open spec fn ends_wait(i: Input) -> bool {
    i is Exited || i is WaitFailed
}

/// Stopping a capture process waits for it exactly once: once the terminate signal
/// has been sent, delivered or not, the wait follows; nothing else moves the session
/// on before the signal's outcome or before the wait's; and after the wait no phase
/// asks for one again.
pub proof fn lemma_terminate_waits_once(
    st: Strategy,
    delay: u64,
    mouse: bool,
    audio: bool,
    f: Option<CaptureError>,
    delivered: bool,
)
    ensures
        transition(st, delay, mouse, audio, Phase::Terminating, f, Input::SignalSent(delivered)) == (
            Phase::Reaping,
            f,
            Action::WaitForExit,
        ),
        forall|i: Input|
            !(i is SignalSent) ==> #[trigger] transition(
                st,
                delay,
                mouse,
                audio,
                Phase::Terminating,
                f,
                i,
            ) == (Phase::Terminating, f, Action::KeepWaiting),
        forall|i: Input|
            !ends_wait(i) ==> #[trigger] transition(st, delay, mouse, audio, Phase::Reaping, f, i)
                == (Phase::Reaping, f, Action::KeepWaiting),
        forall|i: Input|
            ends_wait(i) ==> waits_done(
                #[trigger] transition(st, delay, mouse, audio, Phase::Reaping, f, i).0,
            ) && transition(st, delay, mouse, audio, Phase::Reaping, f, i).2
                != Action::WaitForExit,
        forall|p: Phase, g: Option<CaptureError>, i: Input|
            waits_done(p) ==> waits_done(#[trigger] transition(st, delay, mouse, audio, p, g, i).0)
                && transition(st, delay, mouse, audio, p, g, i).2 != Action::WaitForExit,
{
}

/// The inputs that end a transcode.
pub open spec fn ends_transcode(i: Input) -> bool {
    i is Exited || i is SpawnFailed || i is WaitFailed || i is Unavailable
}

/// Cleanup after a transcode runs whatever the transcode's outcome: the frames file
/// and then the scratch directory are removed, whatever each removal found, before
/// the session finishes; a transcode that did not succeed is still reported at the
/// end. A failed wait for the recorder leads to the same cleanup.
pub proof fn lemma_cleanup_unconditional(
    delay: u64,
    mouse: bool,
    audio: bool,
    f: Option<CaptureError>,
    i: Input,
)
    requires
        ends_transcode(i),
    ensures
        transition(Strategy::VideoX11Gif, delay, mouse, audio, Phase::Transcoding, f, i).0
            == Phase::RemovingFrames,
        transition(Strategy::VideoX11Gif, delay, mouse, audio, Phase::Transcoding, f, i).2
            == Action::RemoveFrames,
        i != Input::Exited(true) ==> transition(
            Strategy::VideoX11Gif,
            delay,
            mouse,
            audio,
            Phase::Transcoding,
            f,
            i,
        ).1 is Some,
        forall|g: Option<CaptureError>|
            #[trigger] transition(
                Strategy::VideoX11Gif,
                delay,
                mouse,
                audio,
                Phase::RemovingFrames,
                g,
                Input::Removed,
            ) == (Phase::RemovingScratch, g, Action::RemoveScratch),
        forall|g: Option<CaptureError>|
            #[trigger] transition(
                Strategy::VideoX11Gif,
                delay,
                mouse,
                audio,
                Phase::RemovingScratch,
                g,
                Input::Removed,
            ) == (Phase::Finished, g, Action::Finish),
        transition(Strategy::VideoX11Gif, delay, mouse, audio, Phase::Reaping, f, Input::WaitFailed)
            == (Phase::RemovingFrames, Some(CaptureError::IoFailure), Action::RemoveFrames),
{
}

/// Without audio no strategy attaches an audio input: the encoder gets no audio
/// arguments and the native session no audio input. With audio, the desktop and the
/// microphone give the encoder different inputs.
pub proof fn lemma_audio_inputs(
    s: Session,
    p: Phase,
    f: Option<CaptureError>,
    i: Input,
    x: nat,
    y: nat,
    w: nat,
    h: nat,
    display: Seq<char>,
    border: bool,
    out: Seq<char>,
)
    ensures
        !s.audio ==> audio_input(s) is None,
        !s.audio ==> audio_args(audio_input(s)) == Seq::<Seq<char>>::empty(),
        transition(s.strategy, s.delay, s.mouse, s.audio, p, f, i).2 is StartNative ==> transition(
            s.strategy,
            s.delay,
            s.mouse,
            s.audio,
            p,
            f,
            i,
        ).2->record_audio == s.audio,
        x11_video_args(x, y, w, h, display, border, s.mouse, Some(AudioDevice::Desktop), out)
            != x11_video_args(x, y, w, h, display, border, s.mouse, Some(AudioDevice::Mic), out),
{
    reveal_strlit("pulse");
    reveal_strlit("hw:0");
    let a = x11_video_args(x, y, w, h, display, border, s.mouse, Some(AudioDevice::Desktop), out);
    let b = x11_video_args(x, y, w, h, display, border, s.mouse, Some(AudioDevice::Mic), out);
    assert(a[13] == "pulse"@);
    assert(b[13] == "hw:0"@);
    assert("pulse"@.len() != "hw:0"@.len());
}

} // verus!
