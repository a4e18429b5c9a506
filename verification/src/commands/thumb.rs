//! `thumb`: extract a representative frame as a JPEG.
use vstd::prelude::*;

use crate::cli::ThumbArgs;
use crate::error::FfxError;
use crate::utils::ffmpeg::ProcessSpec;
use crate::utils::file::{build_output_path, output_path_spec};
use crate::utils::hwaccel::opt_pair;
use crate::utils::runner::AppContext;
use crate::utils::text::{concat, dec, push_str, u64_to_dec};

verus! {

broadcast use vstd::string::group_string_axioms;

/// The thumbnail filter: FFmpeg's `thumbnail` picker, then scaling down to
/// at most `width` pixels wide.
pub open spec fn thumb_filter_spec(width: u32) -> Seq<char> {
    "thumbnail=120,scale='min(iw,"@ + dec(width as nat) + ")':-1"@
}

/// The output path of an input for these options.
pub open spec fn thumb_output_spec(args: ThumbArgs, input: Seq<char>) -> Seq<char> {
    output_path_spec(
        input,
        args.output.output.deep_view(),
        args.output.output_dir.deep_view(),
        "_thumb"@,
        "jpg"@,
    )
}

/// The FFmpeg arguments: seek when a timestamp is given, then write one frame.
pub open spec fn thumb_args_spec(
    input: Seq<char>,
    at: Option<Seq<char>>,
    width: u32,
    output: Seq<char>,
) -> Seq<Seq<char>> {
    seq!["-hide_banner"@, "-y"@] + opt_pair("-ss"@, at) + seq![
        "-i"@,
        input,
        "-vf"@,
        thumb_filter_spec(width),
        "-update"@,
        "1"@,
        "-frames:v"@,
        "1"@,
        output,
    ]
}

/// The single FFmpeg run that writes the thumbnail of `input`.
pub fn build_plan(context: &AppContext, args: &ThumbArgs, input: &str) -> (r: Result<
    Vec<ProcessSpec>,
    FfxError,
>)
    ensures
        r matches Ok(plan) && plan@.len() == 1 && plan@[0]@ == (
            context.ffmpeg_bin@,
            thumb_args_spec(
                input@,
                args.at.deep_view(),
                args.width,
                thumb_output_spec(*args, input@),
            ),
        ),
{
    let output = match build_output_path(input, &args.output, "_thumb", "jpg") {
        Ok(p) => p,
        Err(e) => {
            return Err(e);
        },
    };
    let mut ffmpeg_args: Vec<String> = Vec::new();
    push_str(&mut ffmpeg_args, "-hide_banner");
    push_str(&mut ffmpeg_args, "-y");
    if let Some(at) = &args.at {
        push_str(&mut ffmpeg_args, "-ss");
        push_str(&mut ffmpeg_args, at.as_str());
    }
    let mut filter = concat("thumbnail=120,scale='min(iw,", u64_to_dec(args.width as u64).as_str());
    filter.append(")':-1");
    push_str(&mut ffmpeg_args, "-i");
    push_str(&mut ffmpeg_args, input);
    push_str(&mut ffmpeg_args, "-vf");
    push_str(&mut ffmpeg_args, filter.as_str());
    push_str(&mut ffmpeg_args, "-update");
    push_str(&mut ffmpeg_args, "1");
    push_str(&mut ffmpeg_args, "-frames:v");
    push_str(&mut ffmpeg_args, "1");
    push_str(&mut ffmpeg_args, output.as_str());
    assert(ffmpeg_args.deep_view() =~= thumb_args_spec(
        input@,
        args.at.deep_view(),
        args.width,
        thumb_output_spec(*args, input@),
    ));
    let spec = context.ffmpeg(ffmpeg_args);
    Ok(vec![spec])
}

} // verus!
