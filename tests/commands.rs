use drop_capture::commands::{
    convert_command, encoder_dimensions, ffmpeg_frames_command, ffmpeg_video_command, frames_path,
    grim_command, import_command, memory_ceiling_of, scratch_dir, screencapture_command,
    slop_command, slurp_command, wf_recorder_command, AudioDevice,
};
use drop_capture::region::Region;

fn region(x: u32, y: u32, w: u32, h: u32) -> Region {
    Region {
        x,
        y,
        width: w,
        height: h,
        geometry: format!("{}x{}+{}+{}", w, h, x, y),
        selection_id: "1".to_string(),
    }
}

fn has_pair(args: &[String], a: &str, b: &str) -> bool {
    args.windows(2).any(|w| w[0] == a && w[1] == b)
}

#[test]
fn odd_dimensions_round_down_to_even() {
    assert_eq!(encoder_dimensions(101, 55), (100, 54));
    assert_eq!(encoder_dimensions(100, 54), (100, 54));
    assert_eq!(encoder_dimensions(1, 0), (0, 0));
    let c = ffmpeg_video_command(&region(3, 4, 101, 55), ":1", false, true, None, "o.mp4");
    assert_eq!(c.program, "ffmpeg");
    assert!(has_pair(&c.args, "-vf", "scale=100:54"));
    assert!(has_pair(&c.args, "-s", "101x55"));
    assert!(has_pair(&c.args, "-i", ":1.0+3,4"));
    assert!(has_pair(&c.args, "-show_region", "0"));
    assert!(has_pair(&c.args, "-draw_mouse", "1"));
    assert_eq!(c.args.last().unwrap(), "o.mp4");
}

#[test]
fn no_audio_means_no_audio_input() {
    let c = ffmpeg_video_command(&region(0, 0, 10, 10), ":0", true, true, None, "o.mp4");
    assert!(!c.args.iter().any(|a| a == "alsa" || a == "pulse" || a == "hw:0"));
    assert!(c.args.iter().any(|a| a == "-an"));
    for c in [
        ffmpeg_frames_command(&region(0, 0, 10, 10), ":0", true, true, "o.pam"),
        wf_recorder_command("0,0 10x10", "o.mp4"),
        import_command("10x10+0+0", "o.png"),
        grim_command("0,0 10x10", "o.png"),
        screencapture_command(0, "o.png"),
    ] {
        assert!(!c.args.iter().any(|a| a == "alsa" || a == "pulse" || a == "hw:0"));
    }
}

#[test]
fn desktop_and_mic_give_different_inputs() {
    let d = ffmpeg_video_command(&region(0, 0, 10, 10), ":0", true, true, Some(AudioDevice::Desktop), "o.mp4");
    let m = ffmpeg_video_command(&region(0, 0, 10, 10), ":0", true, true, Some(AudioDevice::Mic), "o.mp4");
    assert!(has_pair(&d.args, "-i", "pulse"));
    assert!(has_pair(&m.args, "-i", "hw:0"));
    assert!(has_pair(&d.args, "-f", "alsa"));
    assert!(!d.args.iter().any(|a| a == "-an"));
    assert_ne!(d.args, m.args);
}

#[test]
fn selector_styles() {
    let t = slop_command(true);
    assert_eq!(t.program, "slop");
    assert_eq!(t.args, vec!["-l", "-c", "0.3,0.4,0.6,0.4", "-f", "%x %y %w %h %g %i"]);
    let o = slop_command(false);
    assert_eq!(o.args, vec!["-b", "5", "-c", "0.3,0.4,0.6,1", "-f", "%x %y %w %h %g %i"]);
    assert!(slurp_command().args.is_empty());
}

#[test]
fn still_commands() {
    assert_eq!(import_command("g", "o.png").args, vec!["-window", "root", "-crop", "g", "o.png"]);
    assert_eq!(grim_command("g", "o.png").args, vec!["-g", "g", "o.png"]);
    assert_eq!(screencapture_command(0, "o.png").args, vec!["-s", "o.png"]);
    assert_eq!(screencapture_command(3, "o.png").args, vec!["-T", "3", "-s", "o.png"]);
}

#[test]
fn frames_at_fixed_rate() {
    let c = ffmpeg_frames_command(&region(5, 6, 7, 8), ":0", false, false, "o.pam");
    assert!(has_pair(&c.args, "-framerate", "20"));
    assert!(has_pair(&c.args, "-s", "7x8"));
    assert!(has_pair(&c.args, "-codec:v", "pam"));
    assert!(has_pair(&c.args, "-f", "rawvideo"));
    assert_eq!(c.args.last().unwrap(), "o.pam");
}

#[test]
fn transcode_memory_ceiling_is_sixty_percent() {
    assert_eq!(memory_ceiling_of(1000), 600);
    assert_eq!(memory_ceiling_of(7), 4);
    assert_eq!(memory_ceiling_of(u64::MAX), 11068046444225730969);
    let c = convert_command("a.pam", "a.gif", 1000, "/d/.cache/x");
    assert_eq!(c.program, "convert");
    assert!(has_pair(&c.args, "memory", "600kiB"));
    assert!(has_pair(&c.args, "-define", "registry:temporary-path=/d/.cache/x"));
    assert_eq!(&c.args[c.args.len() - 2..], &["a.pam".to_string(), "a.gif".to_string()]);
}

#[test]
fn frames_and_scratch_paths() {
    assert_eq!(frames_path("/d/x.gif"), "/d/x.pam");
    assert_eq!(frames_path("/d/x.gif.gif"), "/d/x.gif.pam");
    assert_eq!(frames_path("/d/x"), "/d/x.pam");
    assert_eq!(frames_path(".gif"), ".pam");
    assert_eq!(scratch_dir("/d", "abc"), "/d/.cache/abc");
}
