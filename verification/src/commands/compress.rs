//! `compress`: H.264/AAC MP4 with CRF or a bitrate derived from a target size.
use vstd::prelude::*;

use crate::cli::{CompressArgs, Preset};
use crate::error::FfxError;
use crate::utils::ffmpeg::{ProcessSpec, render_filter_chain};
use crate::utils::file::{build_output_path, output_path_spec};
use crate::utils::hwaccel::{
    CapsModel, HwAccelCapabilities, VideoEncodeSettings, append_h264_encode_args,
    h264_encode_args_spec, insert_hwaccel_before_input, with_hwaccel,
};
use crate::utils::runner::AppContext;
use crate::utils::text::{
    ParseIntFailure, concat, dec, join_spec, parse_u32, parse_u32_spec, push_str, trim_end_char,
    trim_end_char_spec, u64_to_dec,
};

verus! {

broadcast use vstd::string::group_string_axioms;

/// The settings of one compression.
#[derive(Debug, Clone)]
pub struct CompressionProfile {
    pub crf: u8,
    pub speed: String,
    pub max_height: Option<u32>,
    pub audio_bitrate: String,
    pub target_size_mb: Option<u64>,
}

/// The maximum height that a preset scales down to.
pub open spec fn preset_max_height(preset: Preset) -> u32 {
    match preset {
        Preset::Web => 1080,
        Preset::Discord => 1080,
        Preset::HighQuality => 1440,
    }
}

/// The maximum output height: an explicit one, else none when resizing is
/// off, else the preset's (`web` when none is chosen).
pub open spec fn max_height_spec(args: CompressArgs) -> Option<u32> {
    match args.max_height {
        Some(h) => Some(h),
        None => if args.no_resize {
            None
        } else {
            Some(
                preset_max_height(
                    match args.preset {
                        Some(p) => p,
                        None => Preset::Web,
                    },
                ),
            )
        },
    }
}

/// The numeric part of a bitrate such as `128k`: the value without
/// trailing `k`s, read as a `u32`.
pub open spec fn parse_kbps_spec(value: Seq<char>) -> Result<u32, ParseIntFailure> {
    parse_u32_spec(trim_end_char_spec(value, 'k'))
}

/// The numeric part of a bitrate, or why it does not read.
pub fn parse_kbps(value: &str) -> (r: Result<u32, ParseIntFailure>)
    ensures
        r == parse_kbps_spec(value@),
{
    let trimmed = trim_end_char(value, 'k');
    parse_u32(trimmed.as_str())
}

/// The scaling filter that caps the height at `h`, keeping the aspect
/// ratio with an even width; smaller inputs keep their size.
pub open spec fn scale_filter_spec(h: u32) -> Seq<char> {
    let d = dec(h as nat);
    "scale='if(gt(ih,"@ + d + "),trunc(iw*"@ + d + "/ih/2)*2,iw)':'if(gt(ih,"@ + d + "),"@ + d
        + ",ih)'"@
}

/// The video filter of a profile: scaling when a maximum height is set.
pub open spec fn video_filter_spec(max_height: Option<u32>) -> Option<Seq<char>> {
    match max_height {
        Some(h) => Some(join_spec(seq![scale_filter_spec(h)], ","@)),
        None => None,
    }
}

impl CompressionProfile {
    /// The profile of the options: the preset gives the maximum height, the
    /// options give the rest.
    pub fn from_args(args: &CompressArgs) -> (p: Self)
        ensures
            p.crf == args.crf,
            p.speed@ == args.speed@,
            p.audio_bitrate@ == args.audio_bitrate@,
            p.target_size_mb == args.target_size_mb,
            p.max_height == max_height_spec(*args),
    {
        let preset = match args.preset {
            Some(p) => p,
            None => Preset::Web,
        };
        let mut profile = match preset {
            Preset::Web => CompressionProfile {
                crf: 23,
                speed: "medium".to_string(),
                max_height: Some(1080),
                audio_bitrate: "128k".to_string(),
                target_size_mb: args.target_size_mb,
            },
            Preset::Discord => CompressionProfile {
                crf: 28,
                speed: "faster".to_string(),
                max_height: Some(1080),
                audio_bitrate: "128k".to_string(),
                target_size_mb: args.target_size_mb,
            },
            Preset::HighQuality => CompressionProfile {
                crf: 18,
                speed: "slow".to_string(),
                max_height: Some(1440),
                audio_bitrate: "192k".to_string(),
                target_size_mb: args.target_size_mb,
            },
        };
        profile.crf = args.crf;
        profile.speed = args.speed.clone();
        profile.audio_bitrate = args.audio_bitrate.clone();
        if args.no_resize {
            profile.max_height = None;
        }
        if let Some(max_height) = args.max_height {
            profile.max_height = Some(max_height);
        }
        profile
    }

    /// The video filter: scaling when a maximum height is set.
    pub fn video_filter(&self) -> (r: Option<String>)
        ensures
            r.deep_view() == video_filter_spec(self.max_height),
    {
        match self.max_height {
            Some(height) => {
                let h = u64_to_dec(height as u64);
                let h = h.as_str();
                let mut f = concat("scale='if(gt(ih,", h);
                f.append("),trunc(iw*");
                f.append(h);
                f.append("/ih/2)*2,iw)':'if(gt(ih,");
                f.append(h);
                f.append("),");
                f.append(h);
                f.append(",ih)'");
                let filters = vec![f];
                assert(filters@.map_values(|p: String| p@) =~= seq![scale_filter_spec(height)]);
                Some(render_filter_chain(filters.as_slice()))
            },
            None => None,
        }
    }

    /// The video bitrate for a total bitrate (in kbit/s) that a target size
    /// and the input's duration give: the total less the audio bitrate.
    pub fn video_bitrate_for_total(&self, total_kbps: i64) -> (r: Result<String, FfxError>)
        requires
            total_kbps >= 0,
        ensures
            match parse_kbps_spec(self.audio_bitrate@) {
                Err(f) => r matches Err(FfxError::InvalidAudioBitrate(v, g)) && v@
                    == self.audio_bitrate@ && g == f,
                Ok(audio) => if total_kbps - audio <= 0 {
                    r == Err::<String, FfxError>(FfxError::TargetSizeTooSmall)
                } else {
                    r matches Ok(s) && s@ == dec((total_kbps - audio) as nat) + "k"@
                },
            },
    {
        let audio_kbps = match parse_kbps(self.audio_bitrate.as_str()) {
            Ok(k) => k,
            Err(f) => {
                return Err(FfxError::InvalidAudioBitrate(self.audio_bitrate.clone(), f));
            },
        };
        let video_kbps = total_kbps - audio_kbps as i64;
        if video_kbps <= 0 {
            return Err(FfxError::TargetSizeTooSmall);
        }
        let mut s = u64_to_dec(video_kbps as u64);
        s.append("k");
        Ok(s)
    }
}

/// The output path of an input for these options.
pub open spec fn compress_output_spec(args: CompressArgs, input: Seq<char>) -> Seq<char> {
    output_path_spec(
        input,
        args.output.output.deep_view(),
        args.output.output_dir.deep_view(),
        "_compressed"@,
        "mp4"@,
    )
}

/// The rate buffer of bitrate mode: twice the video bitrate, in kbit/s.
pub open spec fn bufsize_spec(video_bitrate: Option<Seq<char>>) -> Option<Seq<char>> {
    match video_bitrate {
        Some(b) => match parse_kbps_spec(b) {
            Ok(k) => Some(dec((k * 2) as nat) + "k"@),
            Err(_) => None,
        },
        None => None,
    }
}

/// The `-vf` arguments of the options: the scaling filter when a maximum
/// height applies, else nothing.
pub open spec fn filter_args_spec(args: CompressArgs) -> Seq<Seq<char>> {
    match video_filter_spec(max_height_spec(args)) {
        Some(f) => seq!["-vf"@, f],
        None => seq![],
    }
}

/// The arguments after the encoder and filter: the first video stream and
/// the optional first audio stream, no subtitles or data, AAC audio at
/// `audio_bitrate`, `+faststart`, and the output path.
pub open spec fn output_args_spec(audio_bitrate: Seq<char>, output: Seq<char>) -> Seq<Seq<char>> {
    seq![
        "-map"@,
        "0:v:0"@,
        "-map"@,
        "0:a:0?"@,
        "-sn"@,
        "-dn"@,
        "-c:a"@,
        "aac"@,
        "-b:a"@,
        audio_bitrate,
        "-movflags"@,
        "+faststart"@,
        output,
    ]
}

/// The FFmpeg arguments of a compression before decode acceleration: the
/// input, the capability's H.264 encoder in bitrate mode (video bitrate as
/// rate and cap, twice it as buffer) when a video bitrate is given, else at
/// the CRF and x264 preset of the options; then the scaling filter, the
/// streams, AAC audio and `+faststart`.
pub open spec fn compress_base_args_spec(
    args: CompressArgs,
    input: Seq<char>,
    video_bitrate: Option<Seq<char>>,
    caps: CapsModel,
) -> Seq<Seq<char>> {
    seq!["-hide_banner"@, "-y"@, "-i"@, input] + h264_encode_args_spec(
        caps,
        args.crf,
        Some(args.speed@),
        video_bitrate,
        video_bitrate,
        bufsize_spec(video_bitrate),
    ) + filter_args_spec(args) + output_args_spec(
        args.audio_bitrate@,
        compress_output_spec(args, input),
    )
}

/// The FFmpeg arguments of a compression: those above, with the input
/// decoded by the capability's acceleration method, if any.
pub open spec fn compress_args_spec(
    args: CompressArgs,
    input: Seq<char>,
    video_bitrate: Option<Seq<char>>,
    caps: CapsModel,
) -> Seq<Seq<char>> {
    with_hwaccel(compress_base_args_spec(args, input, video_bitrate, caps), caps.2)
}

fn push_filter_args(v: &mut Vec<String>, args: &CompressArgs)
    ensures
        final(v).deep_view() == old(v).deep_view() + filter_args_spec(*args),
{
    let profile = CompressionProfile::from_args(args);
    match profile.video_filter() {
        Some(filter) => {
            push_str(v, "-vf");
            push_str(v, filter.as_str());
            assert(v.deep_view() =~= old(v).deep_view() + filter_args_spec(*args));
        },
        None => {
            assert(v.deep_view() =~= old(v).deep_view() + filter_args_spec(*args));
        },
    }
}

fn push_output_args(v: &mut Vec<String>, audio_bitrate: &str, output: &str)
    ensures
        final(v).deep_view() == old(v).deep_view() + output_args_spec(audio_bitrate@, output@),
{
    push_str(v, "-map");
    push_str(v, "0:v:0");
    push_str(v, "-map");
    push_str(v, "0:a:0?");
    push_str(v, "-sn");
    push_str(v, "-dn");
    push_str(v, "-c:a");
    push_str(v, "aac");
    push_str(v, "-b:a");
    push_str(v, audio_bitrate);
    push_str(v, "-movflags");
    push_str(v, "+faststart");
    push_str(v, output);
    assert(v.deep_view() =~= old(v).deep_view() + output_args_spec(audio_bitrate@, output@));
}

/// The rate buffer of a target bitrate, or why the bitrate does not read.
fn bufsize_of(target_video_bitrate: &Option<String>) -> (r: Result<Option<String>, FfxError>)
    requires
        target_video_bitrate matches Some(b) ==> (parse_kbps_spec(b@) matches Ok(k) ==> k * 2
            <= u32::MAX),
    ensures
        match target_video_bitrate {
            Some(b) if parse_kbps_spec(b@) is Err => r matches Err(
                FfxError::InvalidVideoBitrate(v, f),
            ) && v@ == b@ && Err::<u32, ParseIntFailure>(f) == parse_kbps_spec(b@),
            _ => r matches Ok(s) && s.deep_view() == bufsize_spec(target_video_bitrate.deep_view()),
        },
{
    match target_video_bitrate {
        Some(bitrate) => {
            let kbps = match parse_kbps(bitrate.as_str()) {
                Ok(k) => k,
                Err(f) => {
                    return Err(FfxError::InvalidVideoBitrate(bitrate.clone(), f));
                },
            };
            let mut bufsize = u64_to_dec((kbps * 2) as u64);
            bufsize.append("k");
            Ok(Some(bufsize))
        },
        None => Ok(None),
    }
}

/// The single FFmpeg run that compresses `input` with the encoder of
/// `caps`; `target_video_bitrate` is the video bitrate of target-size mode
/// (see `CompressionProfile::video_bitrate_for_total`), `None` for CRF mode.
/// Refused, with the reason, when that bitrate does not read as kbit/s.
pub fn build_plan(
    context: &AppContext,
    args: &CompressArgs,
    input: &str,
    target_video_bitrate: Option<String>,
    caps: &HwAccelCapabilities,
) -> (r: Result<Vec<ProcessSpec>, FfxError>)
    requires
        target_video_bitrate matches Some(b) ==> (parse_kbps_spec(b@) matches Ok(k) ==> k * 2
            <= u32::MAX),
    ensures
        match target_video_bitrate {
            Some(b) if parse_kbps_spec(b@) is Err => r matches Err(
                FfxError::InvalidVideoBitrate(v, f),
            ) && v@ == b@ && Err::<u32, ParseIntFailure>(f) == parse_kbps_spec(b@),
            _ => r matches Ok(plan) && plan@.len() == 1 && plan@[0]@ == (
                context.ffmpeg_bin@,
                compress_args_spec(*args, input@, target_video_bitrate.deep_view(), caps@),
            ),
        },
{
    let bufsize = match bufsize_of(&target_video_bitrate) {
        Ok(b) => b,
        Err(e) => {
            return Err(e);
        },
    };
    let output = match build_output_path(input, &args.output, "_compressed", "mp4") {
        Ok(p) => p,
        Err(e) => {
            return Err(e);
        },
    };
    let ghost vb = target_video_bitrate.deep_view();
    let settings = VideoEncodeSettings {
        crf: args.crf,
        x264_preset: Some(args.speed.clone()),
        video_bitrate: clone_opt(&target_video_bitrate),
        maxrate: target_video_bitrate,
        bufsize,
    };
    let mut ffmpeg_args: Vec<String> = Vec::new();
    push_str(&mut ffmpeg_args, "-hide_banner");
    push_str(&mut ffmpeg_args, "-y");
    push_str(&mut ffmpeg_args, "-i");
    push_str(&mut ffmpeg_args, input);
    let ghost head = ffmpeg_args.deep_view();
    assert(head =~= seq!["-hide_banner"@, "-y"@, "-i"@, input@]);
    append_h264_encode_args(&mut ffmpeg_args, caps, &settings);
    push_filter_args(&mut ffmpeg_args, args);
    push_output_args(&mut ffmpeg_args, args.audio_bitrate.as_str(), output.as_str());
    assert(ffmpeg_args.deep_view() =~= compress_base_args_spec(*args, input@, vb, caps@));
    insert_hwaccel_before_input(&mut ffmpeg_args, caps);
    let spec = context.ffmpeg(ffmpeg_args);
    Ok(vec![spec])
}

fn clone_opt(o: &Option<String>) -> (r: Option<String>)
    ensures
        r.deep_view() == o.deep_view(),
{
    match o {
        Some(s) => Some(s.clone()),
        None => None,
    }
}

} // verus!
