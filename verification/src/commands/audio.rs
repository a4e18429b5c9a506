//! `audio`: extract the audio track to MP3 or M4A.
use vstd::prelude::*;

use crate::cli::{AudioArgs, AudioFormat};
use crate::error::FfxError;
use crate::utils::ffmpeg::ProcessSpec;
use crate::utils::file::{build_output_path, output_path_spec};
use crate::utils::runner::AppContext;

verus! {

broadcast use vstd::string::group_string_axioms;

/// The file extension of an audio format.
pub open spec fn extension_spec(format: AudioFormat) -> Seq<char> {
    match format {
        AudioFormat::Mp3 => "mp3"@,
        AudioFormat::M4a => "m4a"@,
    }
}

/// The FFmpeg audio encoder of an audio format.
pub open spec fn codec_spec(format: AudioFormat) -> Seq<char> {
    match format {
        AudioFormat::Mp3 => "libmp3lame"@,
        AudioFormat::M4a => "aac"@,
    }
}

/// The file extension of an audio format.
pub fn output_extension(format: AudioFormat) -> (r: &'static str)
    ensures
        r@ == extension_spec(format),
{
    match format {
        AudioFormat::Mp3 => "mp3",
        AudioFormat::M4a => "m4a",
    }
}

/// The FFmpeg audio encoder of an audio format.
pub fn audio_codec(format: AudioFormat) -> (r: &'static str)
    ensures
        r@ == codec_spec(format),
{
    match format {
        AudioFormat::Mp3 => "libmp3lame",
        AudioFormat::M4a => "aac",
    }
}

/// The output path of an input for these options.
pub open spec fn audio_output_spec(args: AudioArgs, input: Seq<char>) -> Seq<char> {
    output_path_spec(
        input,
        args.output.output.deep_view(),
        args.output.output_dir.deep_view(),
        ""@,
        extension_spec(args.format),
    )
}

/// The FFmpeg arguments: drop the video, encode the audio at the bitrate.
pub open spec fn audio_args_spec(
    input: Seq<char>,
    codec: Seq<char>,
    bitrate: Seq<char>,
    output: Seq<char>,
) -> Seq<Seq<char>> {
    seq!["-hide_banner"@, "-y"@, "-i"@, input, "-vn"@, "-c:a"@, codec, "-b:a"@, bitrate, output]
}

/// The single FFmpeg run that extracts the audio of `input`.
pub fn build_plan(context: &AppContext, args: &AudioArgs, input: &str) -> (r: Result<
    Vec<ProcessSpec>,
    FfxError,
>)
    ensures
        r matches Ok(plan) && plan@.len() == 1 && plan@[0]@ == (
            context.ffmpeg_bin@,
            audio_args_spec(
                input@,
                codec_spec(args.format),
                args.bitrate@,
                audio_output_spec(*args, input@),
            ),
        ),
{
    let output = match build_output_path(input, &args.output, "", output_extension(args.format)) {
        Ok(p) => p,
        Err(e) => {
            return Err(e);
        },
    };
    let codec = audio_codec(args.format);
    let ffmpeg_args = vec![
        "-hide_banner".to_string(),
        "-y".to_string(),
        "-i".to_string(),
        input.to_string(),
        "-vn".to_string(),
        "-c:a".to_string(),
        codec.to_string(),
        "-b:a".to_string(),
        args.bitrate.clone(),
        output,
    ];
    let spec = context.ffmpeg(ffmpeg_args);
    let plan = vec![spec];
    Ok(plan)
}

} // verus!
