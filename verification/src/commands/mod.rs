pub mod audio;
pub mod gif;
pub mod thumb;
pub mod to_mp4;
pub mod compress;
pub mod cut;
