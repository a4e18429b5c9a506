//! `gif`: convert a clip to an animated GIF with a generated palette.
use vstd::prelude::*;

use crate::cli::GifArgs;
use crate::error::FfxError;
use crate::utils::ffmpeg::{ProcessSpec, render_filter_chain};
use crate::utils::file::{build_output_path, output_path_spec};
use crate::utils::hwaccel::opt_pair;
use crate::utils::runner::AppContext;
use crate::utils::text::{concat, dec, join_spec, push_str, u64_to_dec};

verus! {

broadcast use vstd::string::group_string_axioms;

/// The filters of the palette workflow: frame rate, Lanczos scaling to the
/// width, then `palettegen` and `paletteuse` on two copies of the stream.
pub open spec fn gif_filters_spec(fps: u32, width: u32) -> Seq<Seq<char>> {
    seq![
        "fps="@ + dec(fps as nat),
        "scale="@ + dec(width as nat) + ":-1:flags=lanczos"@,
        "split[s0][s1]"@,
        "[s0]palettegen=stats_mode=full[p]"@,
        "[s1][p]paletteuse=dither=sierra2_4a"@,
    ]
}

/// The output path of an input for these options.
pub open spec fn gif_output_spec(args: GifArgs, input: Seq<char>) -> Seq<char> {
    output_path_spec(
        input,
        args.output.output.deep_view(),
        args.output.output_dir.deep_view(),
        ""@,
        "gif"@,
    )
}

/// The FFmpeg arguments: seek and limit the duration where given, then
/// filter through the palette chain.
pub open spec fn gif_args_spec(
    input: Seq<char>,
    from: Option<Seq<char>>,
    duration: Option<Seq<char>>,
    fps: u32,
    width: u32,
    output: Seq<char>,
) -> Seq<Seq<char>> {
    seq!["-hide_banner"@, "-y"@] + opt_pair("-ss"@, from) + seq!["-i"@, input] + opt_pair(
        "-t"@,
        duration,
    ) + seq!["-vf"@, join_spec(gif_filters_spec(fps, width), ","@), output]
}

/// The single FFmpeg run that converts `input` to a GIF.
pub fn build_plan(context: &AppContext, args: &GifArgs, input: &str) -> (r: Result<
    Vec<ProcessSpec>,
    FfxError,
>)
    ensures
        r matches Ok(plan) && plan@.len() == 1 && plan@[0]@ == (
            context.ffmpeg_bin@,
            gif_args_spec(
                input@,
                args.from.deep_view(),
                args.duration.deep_view(),
                args.fps,
                args.width,
                gif_output_spec(*args, input@),
            ),
        ),
{
    let output = match build_output_path(input, &args.output, "", "gif") {
        Ok(p) => p,
        Err(e) => {
            return Err(e);
        },
    };
    let fps = concat("fps=", u64_to_dec(args.fps as u64).as_str());
    let mut scale = concat("scale=", u64_to_dec(args.width as u64).as_str());
    scale.append(":-1:flags=lanczos");
    let parts = vec![
        fps,
        scale,
        "split[s0][s1]".to_string(),
        "[s0]palettegen=stats_mode=full[p]".to_string(),
        "[s1][p]paletteuse=dither=sierra2_4a".to_string(),
    ];
    assert(parts@.map_values(|p: String| p@) =~= gif_filters_spec(args.fps, args.width));
    let filter = render_filter_chain(parts.as_slice());
    let mut ffmpeg_args: Vec<String> = Vec::new();
    push_str(&mut ffmpeg_args, "-hide_banner");
    push_str(&mut ffmpeg_args, "-y");
    if let Some(from) = &args.from {
        push_str(&mut ffmpeg_args, "-ss");
        push_str(&mut ffmpeg_args, from.as_str());
    }
    push_str(&mut ffmpeg_args, "-i");
    push_str(&mut ffmpeg_args, input);
    if let Some(duration) = &args.duration {
        push_str(&mut ffmpeg_args, "-t");
        push_str(&mut ffmpeg_args, duration.as_str());
    }
    push_str(&mut ffmpeg_args, "-vf");
    push_str(&mut ffmpeg_args, filter.as_str());
    push_str(&mut ffmpeg_args, output.as_str());
    assert(ffmpeg_args.deep_view() =~= gif_args_spec(
        input@,
        args.from.deep_view(),
        args.duration.deep_view(),
        args.fps,
        args.width,
        gif_output_spec(*args, input@),
    ));
    let spec = context.ffmpeg(ffmpeg_args);
    Ok(vec![spec])
}

} // verus!
