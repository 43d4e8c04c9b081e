use vstd::prelude::*;

verus! {

/// The resolved settings of one run.
pub struct DropConfig {
    pub dir: String,
    pub host: Option<String>,
    pub aws_bucket: Option<String>,
    pub aws_key: Option<String>,
    pub aws_secret: Option<String>,
    pub filename_strategy: String,
    pub unique_length: usize,
    pub transparent: bool,
    pub tray_icon: bool,
    pub stop_key: Option<String>,
    pub notifications: bool,
    pub audio: bool,
    pub audio_source: String,
    pub border: bool,
    pub delay: u64,
    pub display_server: String,
    pub extension: Option<String>,
    pub filename: Option<String>,
    pub local: bool,
    pub mouse: bool,
    pub video_format: String,
    pub verbose: bool,
}

/// A setting whose value is none of those allowed.
#[derive(Clone, Copy, Debug, PartialEq, Eq, Structural)]
pub enum ConfigError {
    UnknownFilenameStrategy,
    UnknownAudioSource,
}

/// What `str::to_lowercase` makes of `s`.
pub uninterp spec fn lower_of(s: Seq<char>) -> Seq<char>;

/// Relies on `str::to_lowercase`: the result depends on the characters alone.
#[verifier::external_body]
fn lowercase(s: &str) -> (r: String)
    ensures
        r@ == lower_of(s@),
{
    s.to_lowercase()
}

/// Whether two strings hold the same characters.
pub fn str_eq(a: &str, b: &str) -> (r: bool)
    ensures
        r == (a@ == b@),
{
    String::from_str(a) == String::from_str(b)
}

pub open spec fn is_filename_strategy(s: Seq<char>) -> bool {
    s == "prepend"@ || s == "append"@ || s == "exact"@ || s == "replace"@
}

pub open spec fn is_audio_source(s: Seq<char>) -> bool {
    s == "desktop"@ || s == "mic"@
}

/// The lower-cased setting, or `default` where none was given.
pub open spec fn lowered_or(v: Option<String>, default: Seq<char>) -> Seq<char> {
    match v {
        Some(s) => lower_of(s@),
        None => default,
    }
}

/// Accepts an already lower-cased filename strategy that is one of those known.
pub fn accept_filename_strategy(lowered: String) -> (r: Result<String, ConfigError>)
    ensures
        is_filename_strategy(lowered@) ==> r == Ok::<String, ConfigError>(lowered),
        !is_filename_strategy(lowered@) ==> r == Err::<String, ConfigError>(
            ConfigError::UnknownFilenameStrategy,
        ),
{
    let s = lowered.as_str();
    if str_eq(s, "prepend") || str_eq(s, "append") || str_eq(s, "exact") || str_eq(s, "replace") {
        Ok(lowered)
    } else {
        Err(ConfigError::UnknownFilenameStrategy)
    }
}

/// Accepts an already lower-cased audio source that is one of those known.
pub fn accept_audio_source(lowered: String) -> (r: Result<String, ConfigError>)
    ensures
        is_audio_source(lowered@) ==> r == Ok::<String, ConfigError>(lowered),
        !is_audio_source(lowered@) ==> r == Err::<String, ConfigError>(
            ConfigError::UnknownAudioSource,
        ),
{
    let s = lowered.as_str();
    if str_eq(s, "desktop") || str_eq(s, "mic") {
        Ok(lowered)
    } else {
        Err(ConfigError::UnknownAudioSource)
    }
}

/// The filename strategy, lower-cased, `prepend` where none was given.
pub fn extract_filename_strategy(strategy: Option<String>) -> (r: Result<String, ConfigError>)
    ensures
        match r {
            Ok(s) => s@ == lowered_or(strategy, "prepend"@) && is_filename_strategy(s@),
            Err(e) => e == ConfigError::UnknownFilenameStrategy && !is_filename_strategy(
                lowered_or(strategy, "prepend"@),
            ),
        },
{
    let s = match strategy {
        Some(v) => lowercase(v.as_str()),
        None => String::from_str("prepend"),
    };
    accept_filename_strategy(s)
}

/// The audio source, lower-cased, `mic` where none was given.
pub fn extract_audio_source(source: Option<String>) -> (r: Result<String, ConfigError>)
    ensures
        match r {
            Ok(s) => s@ == lowered_or(source, "mic"@) && is_audio_source(s@),
            Err(e) => e == ConfigError::UnknownAudioSource && !is_audio_source(
                lowered_or(source, "mic"@),
            ),
        },
{
    let s = match source {
        Some(v) => lowercase(v.as_str()),
        None => String::from_str("mic"),
    };
    accept_audio_source(s)
}

/// Drops a value that is the empty string.
pub fn none_if_empty(optvalue: Option<String>) -> (r: Option<String>)
    ensures
        match optvalue {
            Some(v) => if v@.len() > 0 {
                r == Some(v)
            } else {
                r is None
            },
            None => r is None,
        },
{
    match optvalue {
        Some(v) => {
            if v.unicode_len() > 0 {
                Some(v)
            } else {
                None
            }
        },
        None => None,
    }
}

/// `gif` where that format was asked for, `mp4` otherwise.
pub fn get_video_format(value: Option<&str>) -> (r: String)
    ensures
        r@ == (if value is Some && value->Some_0@ == "gif"@ {
            "gif"@
        } else {
            "mp4"@
        }),
{
    match value {
        Some(v) => {
            if str_eq(v, "gif") {
                String::from_str("gif")
            } else {
                String::from_str("mp4")
            }
        },
        None => String::from_str("mp4"),
    }
}

/// The display server asked for, else the one that the environment names, else `x11`.
pub fn get_display_server(value: Option<&str>, detected: Option<String>) -> (r: String)
    ensures
        r@ == (if value is Some && (value->Some_0@ == "wayland"@ || value->Some_0@ == "x11"@) {
            value->Some_0@
        } else if detected is Some {
            detected->Some_0@
        } else {
            "x11"@
        }),
{
    match value {
        Some(v) => {
            if str_eq(v, "wayland") || str_eq(v, "x11") {
                return String::from_str(v);
            }
        },
        None => {},
    }
    match detected {
        Some(d) => d,
        None => String::from_str("x11"),
    }
}

} // verus!
