pub mod text;
pub mod hwaccel;
pub mod ffmpeg;
pub mod log;
pub mod runner;
pub mod file;
