//! The command line as plain values: the global options and one command.
use vstd::prelude::*;

verus! {

/// The global options and the command to run.
#[derive(Debug, Clone)]
pub struct Cli {
    /// Print commands without executing them.
    pub dry_run: bool,
    /// Enable verbose logging.
    pub verbose: bool,
    /// Number of files to process concurrently.
    pub jobs: usize,
    /// Path to the ffmpeg binary.
    pub ffmpeg_bin: String,
    /// Path to the ffprobe binary.
    pub ffprobe_bin: String,
    /// Encode with `libx264` even when a hardware H.264 encoder is available.
    pub no_hwaccel: bool,
    pub command: Commands,
}

/// The media tasks.
#[derive(Debug, Clone)]
pub enum Commands {
    Compress(CompressArgs),
    ToMp4(ToMp4Args),
    Gif(GifArgs),
    Audio(AudioArgs),
    Thumb(ThumbArgs),
    Cut(CutArgs),
}

/// Where results go: an exact file, a directory, or beside the input.
#[derive(Debug, Clone)]
pub struct OutputOptions {
    /// Write the result to this exact file path.
    pub output: Option<String>,
    /// Write generated files into this directory.
    pub output_dir: Option<String>,
}

/// Opinionated encoding presets.
#[derive(Debug, Clone, Copy, PartialEq, Eq, Structural)]
pub enum Preset {
    Web,
    Discord,
    HighQuality,
}

/// Audio extraction formats.
#[derive(Debug, Clone, Copy, PartialEq, Eq, Structural)]
pub enum AudioFormat {
    Mp3,
    M4a,
}

/// Options of `compress`.
#[derive(Debug, Clone)]
pub struct CompressArgs {
    /// One or more input media files.
    pub inputs: Vec<String>,
    pub output: OutputOptions,
    /// H.264 CRF value (default 23).
    pub crf: u8,
    /// FFmpeg encoder preset (default `medium`).
    pub speed: String,
    /// Disable automatic resize to a maximum of 1080p.
    pub no_resize: bool,
    /// Target maximum output height.
    pub max_height: Option<u32>,
    /// Apply an opinionated compression preset.
    pub preset: Option<Preset>,
    /// Target file size in megabytes; uses bitrate mode.
    pub target_size_mb: Option<u64>,
    /// AAC bitrate for compressed audio (default `128k`).
    pub audio_bitrate: String,
}

/// Options of `to-mp4`.
#[derive(Debug, Clone)]
pub struct ToMp4Args {
    /// One or more input media files.
    pub inputs: Vec<String>,
    pub output: OutputOptions,
    /// Force re-encoding instead of trying stream copy.
    pub reencode: bool,
    /// Encoding preset when re-encoding is needed.
    pub preset: Option<Preset>,
}

/// Options of `gif`.
#[derive(Debug, Clone)]
pub struct GifArgs {
    /// One or more input video files.
    pub inputs: Vec<String>,
    pub output: OutputOptions,
    /// GIF frame rate (default 12).
    pub fps: u32,
    /// Output width in pixels (default 480).
    pub width: u32,
    /// Clip start time.
    pub from: Option<String>,
    /// Clip duration.
    pub duration: Option<String>,
}

/// Options of `audio`.
#[derive(Debug, Clone)]
pub struct AudioArgs {
    /// One or more input media files.
    pub inputs: Vec<String>,
    pub output: OutputOptions,
    /// Audio output format (default mp3).
    pub format: AudioFormat,
    /// Target audio bitrate (default `192k`).
    pub bitrate: String,
}

/// Options of `thumb`.
#[derive(Debug, Clone)]
pub struct ThumbArgs {
    /// One or more input video files.
    pub inputs: Vec<String>,
    pub output: OutputOptions,
    /// Timestamp to capture.
    pub at: Option<String>,
    /// Maximum width of the output image (default 1280).
    pub width: u32,
}

/// Options of `cut`.
#[derive(Debug, Clone)]
pub struct CutArgs {
    /// One or more input media files.
    pub inputs: Vec<String>,
    pub output: OutputOptions,
    /// Trim start time.
    pub from: Option<String>,
    /// Trim end time.
    pub to: Option<String>,
    /// Segment ranges, `HH:MM:SS-HH:MM:SS` or `seconds-seconds`.
    pub segments: Vec<String>,
    /// Write each segment to its own file instead of merging.
    pub split: bool,
    /// Sort segments before validation and extraction.
    pub sort_segments: bool,
    /// Always re-encode extracted content.
    pub reencode: bool,
    /// Retry with re-encoding if stream copy fails (default true).
    pub fallback_reencode: bool,
}

} // verus!
