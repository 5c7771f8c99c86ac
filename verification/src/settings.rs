//! User settings for the screenshot and recording features.
//!
//! Loading and saving the settings file is the surrounding application's job;
//! this module owns the shape of the settings and their default values.

use vstd::prelude::*;
use vstd::string::*;

verus! {

/// The user-configurable settings of the control panel.
#[derive(Debug)]
pub struct Settings {
    pub screenshot_dir: String,
    pub screenshot_filename_format: String,
    pub recorder_dir: String,
    pub recorder_filename_format: String,
    pub recorder_codec: String,
    pub recorder_audio_source: Option<String>,
    pub recorder_advanced_args: Option<String>,
    pub recorder_framerate: Option<u32>,
    pub recorder_resolution: Option<String>,
    pub recorder_hardware_accel: Option<bool>,
    pub recorder_audio_device: Option<String>,
}

/// The default screenshot directory under the user's pictures directory, or
/// "/tmp" when that directory is unknown.
pub open spec fn default_screenshot_dir(picture_dir: Option<&str>) -> Seq<char> {
    match picture_dir {
        Some(d) => d@ + "/Screenshots"@,
        None => "/tmp"@,
    }
}

/// The default recording directory under the user's videos directory, or
/// "/tmp" when that directory is unknown.
pub open spec fn default_recorder_dir(video_dir: Option<&str>) -> Seq<char> {
    match video_dir {
        Some(d) => d@ + "/Screenrecord"@,
        None => "/tmp"@,
    }
}

impl Settings {
    /// The default settings, rooted at the user's pictures and videos
    /// directories where known.
    pub fn with_dirs(picture_dir: Option<&str>, video_dir: Option<&str>) -> (s: Settings)
        ensures
            s.screenshot_dir@ == default_screenshot_dir(picture_dir),
            s.recorder_dir@ == default_recorder_dir(video_dir),
            s.screenshot_filename_format@ == "screenshot_%Y-%m-%d_%H-%M-%S.png"@,
            s.recorder_filename_format@ == "recording_%Y-%m-%d_%H-%M-%S.mp4"@,
            s.recorder_codec@ == "libx264"@,
            s.recorder_audio_source matches Some(a) && a@ == "Default"@,
            s.recorder_advanced_args is None,
            s.recorder_framerate == Some(30u32),
            s.recorder_resolution is None,
            s.recorder_hardware_accel == Some(false),
            s.recorder_audio_device is None,
    {
        let screenshot_dir = match picture_dir {
            Some(d) => {
                let mut p = String::from_str(d);
                p.append("/Screenshots");
                p
            },
            None => String::from_str("/tmp"),
        };
        let recorder_dir = match video_dir {
            Some(d) => {
                let mut p = String::from_str(d);
                p.append("/Screenrecord");
                p
            },
            None => String::from_str("/tmp"),
        };
        Settings {
            screenshot_dir,
            screenshot_filename_format: String::from_str("screenshot_%Y-%m-%d_%H-%M-%S.png"),
            recorder_dir,
            recorder_filename_format: String::from_str("recording_%Y-%m-%d_%H-%M-%S.mp4"),
            recorder_codec: String::from_str("libx264"),
            recorder_audio_source: Some(String::from_str("Default")),
            recorder_advanced_args: None,
            recorder_framerate: Some(30),
            recorder_resolution: None,
            recorder_hardware_accel: Some(false),
            recorder_audio_device: None,
        }
    }
}

impl Default for Settings {
    /// The default settings with both directories falling back to "/tmp".
    fn default() -> (s: Settings)
        ensures
            s.screenshot_dir@ == "/tmp"@,
            s.recorder_dir@ == "/tmp"@,
            s.screenshot_filename_format@ == "screenshot_%Y-%m-%d_%H-%M-%S.png"@,
            s.recorder_filename_format@ == "recording_%Y-%m-%d_%H-%M-%S.mp4"@,
            s.recorder_codec@ == "libx264"@,
            s.recorder_audio_source matches Some(a) && a@ == "Default"@,
            s.recorder_advanced_args is None,
            s.recorder_framerate == Some(30u32),
            s.recorder_resolution is None,
            s.recorder_hardware_accel == Some(false),
            s.recorder_audio_device is None,
    {
        Settings::with_dirs(None, None)
    }
}

/// `dir` and `name` joined with a single path separator.
pub fn join_path(dir: &str, name: &str) -> (r: String)
    ensures
        r@ == dir@ + "/"@ + name@,
{
    let mut r = String::from_str(dir);
    r.append("/");
    r.append(name);
    assert(r@ =~= dir@ + "/"@ + name@);
    r
}

} // verus!
