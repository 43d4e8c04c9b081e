use vstd::prelude::*;

use crate::config::str_eq;
use crate::region::Region;
use crate::text::{decimal, decimal_string, ends_with, join2, lemma_strs_push, strs};

verus! {

/// An external program and the arguments to start it with.
pub struct CommandSpec {
    pub program: String,
    pub args: Vec<String>,
}

impl CommandSpec {
    pub open spec fn program_view(&self) -> Seq<char> {
        self.program@
    }

    pub open spec fn args_view(&self) -> Seq<Seq<char>> {
        strs(self.args@)
    }
}

/// Where the recorded sound comes from.
#[derive(Clone, Copy, Debug, PartialEq, Eq, Structural)]
pub enum AudioDevice {
    /// What the desktop plays, through the sound server.
    Desktop,
    /// The first capture device.
    Mic,
}

pub open spec fn device_name(d: AudioDevice) -> Seq<char> {
    match d {
        AudioDevice::Desktop => "pulse"@,
        AudioDevice::Mic => "hw:0"@,
    }
}

/// The encoder arguments that add an audio input, none without a device.
pub open spec fn audio_args(d: Option<AudioDevice>) -> Seq<Seq<char>> {
    match d {
        Some(dev) => seq!["-f"@, "alsa"@, "-i"@, device_name(dev)],
        None => Seq::empty(),
    }
}

pub open spec fn flag(b: bool) -> Seq<char> {
    if b {
        "1"@
    } else {
        "0"@
    }
}

/// A width and height as `WxH`.
pub open spec fn size_text(w: nat, h: nat) -> Seq<char> {
    decimal(w) + "x"@ + decimal(h)
}

/// The largest even number not above `n`.
pub open spec fn even_down(n: nat) -> nat {
    n / 2 * 2
}

/// The scaling filter that gives the encoder even dimensions.
pub open spec fn scale_filter(w: nat, h: nat) -> Seq<char> {
    "scale="@ + decimal(even_down(w)) + ":"@ + decimal(even_down(h))
}

/// The grab source of a display at an offset, `DISPLAY.0+X,Y`.
pub open spec fn grab_input(display: Seq<char>, x: nat, y: nat) -> Seq<char> {
    display + ".0+"@ + decimal(x) + ","@ + decimal(y)
}

pub open spec fn slop_args(transparent: bool) -> Seq<Seq<char>> {
    if transparent {
        seq!["-l"@, "-c"@, "0.3,0.4,0.6,0.4"@, "-f"@, "%x %y %w %h %g %i"@]
    } else {
        seq!["-b"@, "5"@, "-c"@, "0.3,0.4,0.6,1"@, "-f"@, "%x %y %w %h %g %i"@]
    }
}

pub open spec fn x11_video_args(
    x: nat,
    y: nat,
    w: nat,
    h: nat,
    display: Seq<char>,
    border: bool,
    mouse: bool,
    audio: Option<AudioDevice>,
    out: Seq<char>,
) -> Seq<Seq<char>> {
    seq![
        "-f"@,
        "x11grab"@,
        "-show_region"@,
        flag(border),
        "-draw_mouse"@,
        flag(mouse),
        "-s"@,
        size_text(w, h),
        "-i"@,
        grab_input(display, x, y),
    ] + audio_args(audio) + seq![
        "-c:v"@,
        "libx264"@,
        "-c:a"@,
        "aac"@,
        "-crf"@,
        "23"@,
        "-preset"@,
        "ultrafast"@,
        "-movflags"@,
        "+faststart"@,
        "-profile:v"@,
        "baseline"@,
        "-level"@,
        "3.0"@,
        "-pix_fmt"@,
        "yuv420p"@,
        "-ac"@,
        "2"@,
        "-strict"@,
        "experimental"@,
        "-vf"@,
        scale_filter(w, h),
    ] + (if audio is None {
        seq!["-an"@]
    } else {
        Seq::empty()
    }) + seq![out]
}

pub open spec fn x11_frames_args(
    x: nat,
    y: nat,
    w: nat,
    h: nat,
    display: Seq<char>,
    border: bool,
    mouse: bool,
    frames: Seq<char>,
) -> Seq<Seq<char>> {
    seq![
        "-f"@,
        "x11grab"@,
        "-show_region"@,
        flag(border),
        "-draw_mouse"@,
        flag(mouse),
        "-framerate"@,
        "20"@,
        "-s"@,
        size_text(w, h),
        "-i"@,
        grab_input(display, x, y),
        "-codec:v"@,
        "pam"@,
        "-f"@,
        "rawvideo"@,
        frames,
    ]
}

/// The working memory that the transcoder may use: 60% of what is available.
pub open spec fn memory_ceiling(avail: nat) -> nat {
    avail * 3 / 5
}

pub open spec fn convert_args(
    frames: Seq<char>,
    out: Seq<char>,
    avail_kib: nat,
    scratch: Seq<char>,
) -> Seq<Seq<char>> {
    seq![
        "-set"@,
        "delay"@,
        "5"@,
        "-limit"@,
        "disk"@,
        "unlimited"@,
        "-limit"@,
        "memory"@,
        decimal(memory_ceiling(avail_kib)) + "kiB"@,
        "-layers"@,
        "Optimize"@,
        "-define"@,
        "registry:temporary-path="@ + scratch,
        frames,
        out,
    ]
}

/// The file of raw frames beside the output: its `.gif` suffix becomes `.pam`,
/// or `.pam` is added.
pub open spec fn frames_path_of(out: Seq<char>) -> Seq<char> {
    if ends_with(out, ".gif"@) {
        out.subrange(0, out.len() - 4) + ".pam"@
    } else {
        out + ".pam"@
    }
}

/// The transcoder's scratch directory for one session.
pub open spec fn scratch_dir_of(dir: Seq<char>, id: Seq<char>) -> Seq<char> {
    dir + "/.cache/"@ + id
}

fn push_arg(args: &mut Vec<String>, a: &str)
    ensures
        strs(final(args)@) == strs(old(args)@).push(a@),
{
    let s = String::from_str(a);
    proof {
        lemma_strs_push(args@, s);
    }
    args.push(s);
}

fn push_owned(args: &mut Vec<String>, s: String)
    ensures
        strs(final(args)@) == strs(old(args)@).push(s@),
{
    proof {
        lemma_strs_push(args@, s);
    }
    args.push(s);
}

fn flag_str(b: bool) -> (r: &'static str)
    ensures
        r@ == flag(b),
{
    if b {
        "1"
    } else {
        "0"
    }
}

fn command(program: &str, args: Vec<String>) -> (r: CommandSpec)
    ensures
        r.program@ == program@,
        r.args@ == args@,
{
    CommandSpec { program: String::from_str(program), args }
}

/// `WxH`.
fn size_string(w: u32, h: u32) -> (r: String)
    ensures
        r@ == size_text(w as nat, h as nat),
{
    let mut s = decimal_string(w as u64);
    s.append("x");
    let d = decimal_string(h as u64);
    s.append(d.as_str());
    s
}

/// Rounds a width and a height down to even numbers, as the encoder profile needs.
pub fn encoder_dimensions(width: u32, height: u32) -> (r: (u32, u32))
    ensures
        r.0 as nat == even_down(width as nat),
        r.1 as nat == even_down(height as nat),
{
    (width / 2 * 2, height / 2 * 2)
}

/// The encoder's dimensions are even, at most one below the measured ones.
pub proof fn lemma_even_down(n: nat)
    ensures
        even_down(n) % 2 == 0,
        even_down(n) <= n,
        n < even_down(n) + 2,
{
    assert(n / 2 * 2 % 2 == 0) by (nonlinear_arith);
    assert(n / 2 * 2 <= n < n / 2 * 2 + 2) by (nonlinear_arith);
}

fn scale_string(w: u32, h: u32) -> (r: String)
    ensures
        r@ == scale_filter(w as nat, h as nat),
{
    let (ew, eh) = encoder_dimensions(w, h);
    let mut s = String::from_str("scale=");
    let a = decimal_string(ew as u64);
    s.append(a.as_str());
    s.append(":");
    let b = decimal_string(eh as u64);
    s.append(b.as_str());
    s
}

fn grab_input_string(display: &str, x: u32, y: u32) -> (r: String)
    ensures
        r@ == grab_input(display@, x as nat, y as nat),
{
    let mut s = String::from_str(display);
    s.append(".0+");
    let a = decimal_string(x as u64);
    s.append(a.as_str());
    s.append(",");
    let b = decimal_string(y as u64);
    s.append(b.as_str());
    s
}

/// The region selector for X11, styled by the overlay's transparency.
pub fn slop_command(transparent: bool) -> (r: CommandSpec)
    ensures
        r.program_view() == "slop"@,
        r.args_view() == slop_args(transparent),
{
    let mut a: Vec<String> = Vec::new();
    if transparent {
        push_arg(&mut a, "-l");
        push_arg(&mut a, "-c");
        push_arg(&mut a, "0.3,0.4,0.6,0.4");
    } else {
        push_arg(&mut a, "-b");
        push_arg(&mut a, "5");
        push_arg(&mut a, "-c");
        push_arg(&mut a, "0.3,0.4,0.6,1");
    }
    push_arg(&mut a, "-f");
    push_arg(&mut a, "%x %y %w %h %g %i");
    command("slop", a)
}

/// The region selector for Wayland.
pub fn slurp_command() -> (r: CommandSpec)
    ensures
        r.program_view() == "slurp"@,
        r.args_view() == Seq::<Seq<char>>::empty(),
{
    let a: Vec<String> = Vec::new();
    assert(strs(a@) =~= Seq::<Seq<char>>::empty());
    command("slurp", a)
}

/// A still image of the root window cropped to `geometry` (X11).
pub fn import_command(geometry: &str, out: &str) -> (r: CommandSpec)
    ensures
        r.program_view() == "import"@,
        r.args_view() == seq!["-window"@, "root"@, "-crop"@, geometry@, out@],
{
    let mut a: Vec<String> = Vec::new();
    assert(strs(a@) =~= Seq::<Seq<char>>::empty());
    push_arg(&mut a, "-window");
    push_arg(&mut a, "root");
    push_arg(&mut a, "-crop");
    push_arg(&mut a, geometry);
    push_arg(&mut a, out);
    command("import", a)
}

/// A still image of `geometry` (Wayland).
pub fn grim_command(geometry: &str, out: &str) -> (r: CommandSpec)
    ensures
        r.program_view() == "grim"@,
        r.args_view() == seq!["-g"@, geometry@, out@],
{
    let mut a: Vec<String> = Vec::new();
    assert(strs(a@) =~= Seq::<Seq<char>>::empty());
    push_arg(&mut a, "-g");
    push_arg(&mut a, geometry);
    push_arg(&mut a, out);
    command("grim", a)
}

/// A video of `geometry` (Wayland).
pub fn wf_recorder_command(geometry: &str, out: &str) -> (r: CommandSpec)
    ensures
        r.program_view() == "wf-recorder"@,
        r.args_view() == seq!["-g"@, geometry@, "--file"@, out@],
{
    let mut a: Vec<String> = Vec::new();
    assert(strs(a@) =~= Seq::<Seq<char>>::empty());
    push_arg(&mut a, "-g");
    push_arg(&mut a, geometry);
    push_arg(&mut a, "--file");
    push_arg(&mut a, out);
    command("wf-recorder", a)
}

/// The native still-capture tool, which selects and waits by itself.
pub fn screencapture_command(delay: u64, out: &str) -> (r: CommandSpec)
    ensures
        r.program_view() == "screencapture"@,
        r.args_view() == (if delay > 0 {
            seq!["-T"@, decimal(delay as nat)]
        } else {
            Seq::empty()
        }) + seq!["-s"@, out@],
{
    let mut a: Vec<String> = Vec::new();
    assert(strs(a@) =~= Seq::<Seq<char>>::empty());
    if delay > 0 {
        push_arg(&mut a, "-T");
        push_owned(&mut a, decimal_string(delay));
    }
    let ghost head = strs(a@);
    push_arg(&mut a, "-s");
    push_arg(&mut a, out);
    assert(strs(a@) =~= head + seq!["-s"@, out@]);
    command("screencapture", a)
}

/// The X11 video encoder at the region's offset and size, with an audio input
/// only where a device is given.
#[verifier::rlimit(40)]
pub fn ffmpeg_video_command(
    region: &Region,
    display: &str,
    border: bool,
    mouse: bool,
    audio: Option<AudioDevice>,
    out: &str,
) -> (r: CommandSpec)
    ensures
        r.program_view() == "ffmpeg"@,
        r.args_view() == x11_video_args(
            region.x as nat,
            region.y as nat,
            region.width as nat,
            region.height as nat,
            display@,
            border,
            mouse,
            audio,
            out@,
        ),
{
    let mut a: Vec<String> = Vec::new();
    assert(strs(a@) =~= Seq::<Seq<char>>::empty());
    push_arg(&mut a, "-f");
    push_arg(&mut a, "x11grab");
    push_arg(&mut a, "-show_region");
    push_arg(&mut a, flag_str(border));
    push_arg(&mut a, "-draw_mouse");
    push_arg(&mut a, flag_str(mouse));
    push_arg(&mut a, "-s");
    push_owned(&mut a, size_string(region.width, region.height));
    push_arg(&mut a, "-i");
    push_owned(&mut a, grab_input_string(display, region.x, region.y));
    let ghost p1 = strs(a@);
    match audio {
        Some(dev) => {
            push_arg(&mut a, "-f");
            push_arg(&mut a, "alsa");
            push_arg(&mut a, "-i");
            match dev {
                AudioDevice::Desktop => push_arg(&mut a, "pulse"),
                AudioDevice::Mic => push_arg(&mut a, "hw:0"),
            }
        },
        None => {},
    }
    assert(strs(a@) =~= p1 + audio_args(audio));
    let ghost p2 = strs(a@);
    push_arg(&mut a, "-c:v");
    push_arg(&mut a, "libx264");
    push_arg(&mut a, "-c:a");
    push_arg(&mut a, "aac");
    push_arg(&mut a, "-crf");
    push_arg(&mut a, "23");
    push_arg(&mut a, "-preset");
    push_arg(&mut a, "ultrafast");
    push_arg(&mut a, "-movflags");
    push_arg(&mut a, "+faststart");
    push_arg(&mut a, "-profile:v");
    push_arg(&mut a, "baseline");
    push_arg(&mut a, "-level");
    push_arg(&mut a, "3.0");
    push_arg(&mut a, "-pix_fmt");
    push_arg(&mut a, "yuv420p");
    push_arg(&mut a, "-ac");
    push_arg(&mut a, "2");
    push_arg(&mut a, "-strict");
    push_arg(&mut a, "experimental");
    push_arg(&mut a, "-vf");
    push_owned(&mut a, scale_string(region.width, region.height));
    let ghost p3 = strs(a@);
    if audio.is_none() {
        push_arg(&mut a, "-an");
    }
    let ghost p4 = strs(a@);
    push_arg(&mut a, out);
    proof {
        let tail = seq![
            "-c:v"@,
            "libx264"@,
            "-c:a"@,
            "aac"@,
            "-crf"@,
            "23"@,
            "-preset"@,
            "ultrafast"@,
            "-movflags"@,
            "+faststart"@,
            "-profile:v"@,
            "baseline"@,
            "-level"@,
            "3.0"@,
            "-pix_fmt"@,
            "yuv420p"@,
            "-ac"@,
            "2"@,
            "-strict"@,
            "experimental"@,
            "-vf"@,
            scale_filter(region.width as nat, region.height as nat),
        ];
        assert(p3 =~= p2 + tail);
        let mute: Seq<Seq<char>> = if audio is None {
            seq!["-an"@]
        } else {
            Seq::empty()
        };
        assert(p4 =~= p3 + mute);
        assert(strs(a@) =~= p4 + seq![out@]);
    }
    command("ffmpeg", a)
}

/// The X11 encoder writing raw frames at a fixed rate, for later transcoding.
pub fn ffmpeg_frames_command(
    region: &Region,
    display: &str,
    border: bool,
    mouse: bool,
    frames: &str,
) -> (r: CommandSpec)
    ensures
        r.program_view() == "ffmpeg"@,
        r.args_view() == x11_frames_args(
            region.x as nat,
            region.y as nat,
            region.width as nat,
            region.height as nat,
            display@,
            border,
            mouse,
            frames@,
        ),
{
    let mut a: Vec<String> = Vec::new();
    assert(strs(a@) =~= Seq::<Seq<char>>::empty());
    push_arg(&mut a, "-f");
    push_arg(&mut a, "x11grab");
    push_arg(&mut a, "-show_region");
    push_arg(&mut a, flag_str(border));
    push_arg(&mut a, "-draw_mouse");
    push_arg(&mut a, flag_str(mouse));
    push_arg(&mut a, "-framerate");
    push_arg(&mut a, "20");
    push_arg(&mut a, "-s");
    push_owned(&mut a, size_string(region.width, region.height));
    push_arg(&mut a, "-i");
    push_owned(&mut a, grab_input_string(display, region.x, region.y));
    push_arg(&mut a, "-codec:v");
    push_arg(&mut a, "pam");
    push_arg(&mut a, "-f");
    push_arg(&mut a, "rawvideo");
    push_arg(&mut a, frames);
    command("ffmpeg", a)
}

/// 60% of `avail`, rounded down.
pub fn memory_ceiling_of(avail: u64) -> (r: u64)
    ensures
        r as nat == memory_ceiling(avail as nat),
{
    let q = avail / 5;
    let m = avail % 5;
    assert(avail as nat * 3 / 5 == q * 3 + m * 3 / 5) by (nonlinear_arith)
        requires
            q == avail as nat / 5,
            m == avail as nat % 5,
    ;
    q * 3 + m * 3 / 5
}

/// The transcoder that turns raw frames into the animated image, with its
/// memory ceiling and scratch directory.
pub fn convert_command(frames: &str, out: &str, avail_kib: u64, scratch: &str) -> (r: CommandSpec)
    ensures
        r.program_view() == "convert"@,
        r.args_view() == convert_args(frames@, out@, avail_kib as nat, scratch@),
{
    let mut a: Vec<String> = Vec::new();
    assert(strs(a@) =~= Seq::<Seq<char>>::empty());
    push_arg(&mut a, "-set");
    push_arg(&mut a, "delay");
    push_arg(&mut a, "5");
    push_arg(&mut a, "-limit");
    push_arg(&mut a, "disk");
    push_arg(&mut a, "unlimited");
    push_arg(&mut a, "-limit");
    push_arg(&mut a, "memory");
    let mut limit = decimal_string(memory_ceiling_of(avail_kib));
    limit.append("kiB");
    push_owned(&mut a, limit);
    push_arg(&mut a, "-layers");
    push_arg(&mut a, "Optimize");
    push_arg(&mut a, "-define");
    push_owned(&mut a, join2("registry:temporary-path=", scratch));
    push_arg(&mut a, frames);
    push_arg(&mut a, out);
    command("convert", a)
}

/// The raw-frames file that belongs to the output `out`.
pub fn frames_path(out: &str) -> (r: String)
    ensures
        r@ == frames_path_of(out@),
{
    let n = out.unicode_len();
    if n >= 4 {
        let tail = out.substring_char(n - 4, n);
        if str_eq(tail, ".gif") {
            let head = out.substring_char(0, n - 4);
            return join2(head, ".pam");
        }
    }
    proof {
        reveal_strlit(".gif");
    }
    join2(out, ".pam")
}

/// The scratch directory `DIR/.cache/ID`.
pub fn scratch_dir(dir: &str, id: &str) -> (r: String)
    ensures
        r@ == scratch_dir_of(dir@, id@),
{
    let mut s = join2(dir, "/.cache/");
    s.append(id);
    s
}

} // verus!
