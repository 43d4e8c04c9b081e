use vstd::prelude::*;

use crate::commands::{scratch_dir, scratch_dir_of};
use crate::config::{str_eq, DropConfig};
use crate::naming::{is_random_word, random_alphanumeric};
use crate::session::{fresh, Session, Strategy};

verus! {

/// The length of the random name of a transcoder's scratch directory.
pub const SCRATCH_ID_LENGTH: usize = 30;

pub open spec fn on_wayland(config: DropConfig) -> bool {
    config.display_server@ == "wayland"@
}

/// A still image of a region chosen on X11.
pub fn screenshot_x11(out_path: &str, config: &DropConfig) -> (r: Session)
    ensures
        fresh(r, Strategy::StillX11, out_path@, *config, ""@, ""@),
{
    Session::new(Strategy::StillX11, out_path, config, "", "")
}

/// A still image of a region chosen on Wayland.
pub fn screenshot_wayland(out_path: &str, config: &DropConfig) -> (r: Session)
    ensures
        fresh(r, Strategy::StillWayland, out_path@, *config, ""@, ""@),
{
    Session::new(Strategy::StillWayland, out_path, config, "", "")
}

/// A still image of a chosen region, on the configured display server.
pub fn screenshot(out_path: &str, config: &DropConfig) -> (r: Session)
    ensures
        fresh(
            r,
            if on_wayland(*config) {
                Strategy::StillWayland
            } else {
                Strategy::StillX11
            },
            out_path@,
            *config,
            ""@,
            ""@,
        ),
{
    if str_eq(config.display_server.as_str(), "wayland") {
        screenshot_wayland(out_path, config)
    } else {
        screenshot_x11(out_path, config)
    }
}

/// A video of a region chosen on X11, grabbed from `display`: encoded directly, or,
/// for the `gif` format, as raw frames transcoded afterwards in a fresh scratch
/// directory under the drop directory.
pub fn screencast_x11(out_path: &str, config: &DropConfig, display: &str) -> (r: Session)
    ensures
        config.video_format@ == "gif"@ ==> exists|id: Seq<char>|
            is_random_word(id, SCRATCH_ID_LENGTH as nat) && fresh(
                r,
                Strategy::VideoX11Gif,
                out_path@,
                *config,
                display@,
                scratch_dir_of(config.dir@, id),
            ),
        config.video_format@ != "gif"@ ==> fresh(
            r,
            Strategy::VideoX11,
            out_path@,
            *config,
            display@,
            ""@,
        ),
{
    if str_eq(config.video_format.as_str(), "gif") {
        let id = random_alphanumeric(SCRATCH_ID_LENGTH);
        let scratch = scratch_dir(config.dir.as_str(), id.as_str());
        Session::new(Strategy::VideoX11Gif, out_path, config, display, scratch.as_str())
    } else {
        Session::new(Strategy::VideoX11, out_path, config, display, "")
    }
}

/// A video of a region chosen on Wayland.
pub fn screencast_wayland(out_path: &str, config: &DropConfig) -> (r: Session)
    ensures
        fresh(r, Strategy::VideoWayland, out_path@, *config, ""@, ""@),
{
    Session::new(Strategy::VideoWayland, out_path, config, "", "")
}

/// A video of a chosen region, on the configured display server.
pub fn screencast(out_path: &str, config: &DropConfig, display: &str) -> (r: Session)
    ensures
        on_wayland(*config) ==> fresh(r, Strategy::VideoWayland, out_path@, *config, ""@, ""@),
        !on_wayland(*config) && config.video_format@ != "gif"@ ==> fresh(
            r,
            Strategy::VideoX11,
            out_path@,
            *config,
            display@,
            ""@,
        ),
        !on_wayland(*config) && config.video_format@ == "gif"@ ==> exists|id: Seq<char>|
            is_random_word(id, SCRATCH_ID_LENGTH as nat) && fresh(
                r,
                Strategy::VideoX11Gif,
                out_path@,
                *config,
                display@,
                scratch_dir_of(config.dir@, id),
            ),
{
    if str_eq(config.display_server.as_str(), "wayland") {
        screencast_wayland(out_path, config)
    } else {
        screencast_x11(out_path, config, display)
    }
}

/// A still image by the platform's own tool, which selects and waits by itself.
pub fn crop_and_take_screenshot(out_path: &str, config: &DropConfig) -> (r: Session)
    ensures
        fresh(r, Strategy::StillNative, out_path@, *config, ""@, ""@),
{
    Session::new(Strategy::StillNative, out_path, config, "", "")
}

/// A video by the platform's capture session.
pub fn crop_and_take_screencast(out_path: &str, config: &DropConfig) -> (r: Session)
    ensures
        fresh(r, Strategy::VideoNative, out_path@, *config, ""@, ""@),
{
    Session::new(Strategy::VideoNative, out_path, config, "", "")
}

} // verus!
