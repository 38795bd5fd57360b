//! Core value types shared by every stage of the pipeline.

use vstd::prelude::*;

verus! {

/// A target output resolution for decoded frames.
#[derive(Debug, Clone, Copy, PartialEq, Eq, Structural)]
pub enum VideoSize {
    /// 426x240
    P240,
    /// 640x360
    P360,
    /// 854x480
    P480,
    /// 1280x720
    P720,
    /// 1920x1080
    P1080,
}

/// The width and height, in pixels, that a `VideoSize` stands for.
pub open spec fn spec_dimensions(s: VideoSize) -> (u32, u32) {
    match s {
        VideoSize::P240 => (426u32, 240u32),
        VideoSize::P360 => (640u32, 360u32),
        VideoSize::P480 => (854u32, 480u32),
        VideoSize::P720 => (1280u32, 720u32),
        VideoSize::P1080 => (1920u32, 1080u32),
    }
}

impl VideoSize {
    /// The (width, height) pair this size selects.
    pub fn dimensions(&self) -> (r: (u32, u32))
        ensures
            r == spec_dimensions(*self),
    {
        match self {
            VideoSize::P240 => (426, 240),
            VideoSize::P360 => (640, 360),
            VideoSize::P480 => (854, 480),
            VideoSize::P720 => (1280, 720),
            VideoSize::P1080 => (1920, 1080),
        }
    }
}

/// Errors surfaced by the decoding pipeline.
#[derive(Debug, Clone, PartialEq, Eq)]
pub enum MediaLibError {
    /// The codec, demuxer, device or processing graph failed.
    FFmpegError(String),
    /// A failure that fits no other variant.
    UnknownError(String),
    /// The still-image encoding step failed.
    ImageError(String),
}

/// The message text an error carries.
pub open spec fn spec_error_message(e: MediaLibError) -> Seq<char> {
    match e {
        MediaLibError::FFmpegError(s) => s@,
        MediaLibError::UnknownError(s) => s@,
        MediaLibError::ImageError(s) => s@,
    }
}

impl MediaLibError {
    /// The error's message text.
    pub fn message(&self) -> (r: &String)
        ensures
            r@ == spec_error_message(*self),
    {
        match self {
            MediaLibError::FFmpegError(s) => s,
            MediaLibError::UnknownError(s) => s,
            MediaLibError::ImageError(s) => s,
        }
    }
}

/// Commands of the command-line front end.
#[derive(Debug, Clone, PartialEq, Eq)]
pub enum Command {
    /// Decode `input` and write each key frame as a still image into
    /// `output_dir`.
    GetKeyFrames { input: String, output_dir: String },
}

/// Options a client passes when requesting a new decoder.
#[derive(Debug, Clone, Copy, PartialEq, Eq, Structural)]
pub struct MediaFrameDecoderOptions {
    pub target_width: u32,
    pub target_height: u32,
}

/// Token returned by a successfully initialised decoding engine.
#[derive(Debug, Clone, Copy, PartialEq, Eq, Structural)]
pub struct MediaLibInit {}

} // verus!
