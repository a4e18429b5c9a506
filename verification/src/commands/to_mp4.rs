//! `to-mp4`: remux into MP4 when the codecs allow it, else re-encode.
use vstd::prelude::*;

use crate::cli::{Preset, ToMp4Args};
use crate::error::FfxError;
use crate::utils::ffmpeg::{ProcessSpec, StreamSummary, can_stream_copy_spec, can_stream_copy_to_mp4};
use crate::utils::file::{build_output_path, output_path_spec};
use crate::utils::runner::AppContext;
use crate::utils::hwaccel::{
    CapsModel, HwAccelCapabilities, append_crf_encode_args, crf_encode_args_spec,
    insert_hwaccel_before_input, with_hwaccel,
};
use crate::utils::text::push_str;

verus! {

broadcast use vstd::string::group_string_axioms;

/// The CRF and x264 preset of an encoding preset.
pub open spec fn preset_quality(preset: Preset) -> (u8, Seq<char>) {
    match preset {
        Preset::Web => (23, "medium"@),
        Preset::Discord => (28, "faster"@),
        Preset::HighQuality => (18, "slow"@),
    }
}

/// The preset to use: the one given, else `web`.
pub open spec fn chosen_preset(preset: Option<Preset>) -> Preset {
    match preset {
        Some(p) => p,
        None => Preset::Web,
    }
}

/// The output path of an input for these options.
pub open spec fn to_mp4_output_spec(args: ToMp4Args, input: Seq<char>) -> Seq<char> {
    output_path_spec(
        input,
        args.output.output.deep_view(),
        args.output.output_dir.deep_view(),
        ""@,
        "mp4"@,
    )
}

/// Stream copy of the first video and (if any) first audio stream.
pub open spec fn copy_args_spec(input: Seq<char>, output: Seq<char>) -> Seq<Seq<char>> {
    seq![
        "-hide_banner"@,
        "-y"@,
        "-i"@,
        input,
        "-map"@,
        "0:v:0"@,
        "-map"@,
        "0:a:0?"@,
        "-sn"@,
        "-dn"@,
        "-c"@,
        "copy"@,
        "-movflags"@,
        "+faststart"@,
        output,
    ]
}

/// The stream selection that both conversions start with.
pub open spec fn selection_args_spec(input: Seq<char>) -> Seq<Seq<char>> {
    seq![
        "-hide_banner"@,
        "-y"@,
        "-i"@,
        input,
        "-map"@,
        "0:v:0"@,
        "-map"@,
        "0:a:0?"@,
        "-sn"@,
        "-dn"@,
    ]
}

/// Re-encoding to H.264/AAC with the quality of a preset: the capability's
/// H.264 encoder at the preset's CRF and x264 preset, AAC audio at 192k,
/// with the input decoded by the capability's acceleration method, if any.
pub open spec fn reencode_args_spec(
    input: Seq<char>,
    preset: Preset,
    output: Seq<char>,
    caps: CapsModel,
) -> Seq<Seq<char>> {
    let (crf, speed) = preset_quality(preset);
    with_hwaccel(
        selection_args_spec(input) + crf_encode_args_spec(caps, crf, speed)
            + seq!["-c:a"@, "aac"@, "-b:a"@, "192k"@, "-movflags"@, "+faststart"@, output],
        caps.2,
    )
}

/// Whether the input is remuxed: re-encoding is not forced and its streams
/// fit MP4 as they are.
pub open spec fn should_copy_spec(args: ToMp4Args, probe: StreamSummary) -> bool {
    !args.reencode && can_stream_copy_spec(probe.video_codec.deep_view(), probe.audio_codec.deep_view())
}

fn push_stream_selection(args: &mut Vec<String>, input: &str)
    ensures
        final(args).deep_view() == old(args).deep_view() + selection_args_spec(input@),
{
    push_str(args, "-hide_banner");
    push_str(args, "-y");
    push_str(args, "-i");
    push_str(args, input);
    push_str(args, "-map");
    push_str(args, "0:v:0");
    push_str(args, "-map");
    push_str(args, "0:a:0?");
    push_str(args, "-sn");
    push_str(args, "-dn");
    assert(args.deep_view() =~= old(args).deep_view() + selection_args_spec(input@));
}

/// The single FFmpeg run that converts `input`, given what `ffprobe`
/// reported of its streams; a re-encoding uses the encoder of `caps`.
pub fn build_plan(
    context: &AppContext,
    args: &ToMp4Args,
    input: &str,
    probe: &StreamSummary,
    caps: &HwAccelCapabilities,
) -> (r: Result<Vec<ProcessSpec>, FfxError>)
    ensures
        r matches Ok(plan) && plan@.len() == 1 && plan@[0]@ == (
            context.ffmpeg_bin@,
            if should_copy_spec(*args, *probe) {
                copy_args_spec(input@, to_mp4_output_spec(*args, input@))
            } else {
                reencode_args_spec(
                    input@,
                    chosen_preset(args.preset),
                    to_mp4_output_spec(*args, input@),
                    caps@,
                )
            },
        ),
{
    let output = match build_output_path(input, &args.output, "", "mp4") {
        Ok(p) => p,
        Err(e) => {
            return Err(e);
        },
    };
    let should_copy = !args.reencode && can_stream_copy_to_mp4(probe);
    let mut ffmpeg_args: Vec<String> = Vec::new();
    push_stream_selection(&mut ffmpeg_args, input);
    if should_copy {
        push_str(&mut ffmpeg_args, "-c");
        push_str(&mut ffmpeg_args, "copy");
        push_str(&mut ffmpeg_args, "-movflags");
        push_str(&mut ffmpeg_args, "+faststart");
        push_str(&mut ffmpeg_args, output.as_str());
        assert(ffmpeg_args.deep_view() =~= copy_args_spec(input@, to_mp4_output_spec(*args, input@)));
    } else {
        let preset = match args.preset {
            Some(p) => p,
            None => Preset::Web,
        };
        let (crf, speed): (u8, &str) = match preset {
            Preset::Web => (23, "medium"),
            Preset::Discord => (28, "faster"),
            Preset::HighQuality => (18, "slow"),
        };
        append_crf_encode_args(&mut ffmpeg_args, caps, crf, speed);
        push_str(&mut ffmpeg_args, "-c:a");
        push_str(&mut ffmpeg_args, "aac");
        push_str(&mut ffmpeg_args, "-b:a");
        push_str(&mut ffmpeg_args, "192k");
        push_str(&mut ffmpeg_args, "-movflags");
        push_str(&mut ffmpeg_args, "+faststart");
        push_str(&mut ffmpeg_args, output.as_str());
        let ghost (c, sp) = preset_quality(chosen_preset(args.preset));
        assert(ffmpeg_args.deep_view() =~= selection_args_spec(input@) + crf_encode_args_spec(caps@, c, sp) + seq![
            "-c:a"@,
            "aac"@,
            "-b:a"@,
            "192k"@,
            "-movflags"@,
            "+faststart"@,
            to_mp4_output_spec(*args, input@),
        ]);
        insert_hwaccel_before_input(&mut ffmpeg_args, caps);
    }
    let spec = context.ffmpeg(ffmpeg_args);
    Ok(vec![spec])
}

} // verus!
