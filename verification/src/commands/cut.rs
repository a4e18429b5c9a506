//! `cut`: trim one range, or several ranges split apart or merged.
//!
//! Times are floating-point seconds, which this library does not hold: the
//! caller reads and renders them; this module splits the text around them,
//! decides the order of attempts, and builds every FFmpeg run and the
//! concat list.
use vstd::prelude::*;

use crate::cli::{CutArgs, OutputOptions};
use crate::error::FfxError;
use crate::utils::ffmpeg::ProcessSpec;
use crate::utils::file::{
    build_output_path, build_segment_output_path, join_path, output_path_spec, path_join,
    place_output, segment_file_name,
};
use crate::utils::hwaccel::{
    CapsModel, HwAccelCapabilities, append_crf_encode_args, crf_encode_args_spec,
    insert_hwaccel_before_input, with_hwaccel,
};
use crate::utils::runner::AppContext;
use crate::utils::text::{
    concat, contains_char, dec_padded, push_str, replace_char, replace_char_spec, split_char,
    split_once_char, split_once_spec, split_spec, trim_spec, trim, u64_to_dec_padded,
};

verus! {

broadcast use vstd::string::group_string_axioms;

/// How the segments of one input are cut.
#[derive(Debug, Clone, Copy, PartialEq, Eq, Structural)]
pub enum CutMode {
    /// Each segment to its own file; `precise` when there are several, in
    /// which case each is re-encoded and checked, without fallback.
    Split { precise: bool },
    /// One segment to the output, with the copy-then-re-encode fallback.
    Single,
    /// Several segments extracted, then merged into the output.
    Merge,
}

/// The mode for the options and the number of segments.
pub open spec fn cut_mode_spec(split: bool, segment_count: nat) -> CutMode {
    if split {
        CutMode::Split { precise: segment_count > 1 }
    } else if segment_count == 1 {
        CutMode::Single
    } else {
        CutMode::Merge
    }
}

/// The mode for the options and the number of segments.
pub fn cut_mode(split: bool, segment_count: usize) -> (m: CutMode)
    ensures
        m == cut_mode_spec(split, segment_count as nat),
{
    if split {
        CutMode::Split { precise: segment_count > 1 }
    } else if segment_count == 1 {
        CutMode::Single
    } else {
        CutMode::Merge
    }
}

/// The encodings tried, in order, for one trim (`true` = re-encode): a
/// precise trim re-encodes once; otherwise the requested encoding first,
/// then a re-encode when the fallback is on and the first was a copy.
pub open spec fn trim_attempts_spec(precise: bool, reencode: bool, fallback_reencode: bool) -> Seq<
    bool,
> {
    if precise {
        seq![true]
    } else if fallback_reencode && !reencode {
        seq![reencode, true]
    } else {
        seq![reencode]
    }
}

/// The encodings tried, in order, for one trim; the caller stops at the
/// first attempt whose output checks out and reports the last failure.
pub fn trim_attempts(precise: bool, reencode: bool, fallback_reencode: bool) -> (r: Vec<bool>)
    ensures
        r@ == trim_attempts_spec(precise, reencode, fallback_reencode),
{
    if precise {
        vec![true]
    } else if fallback_reencode && !reencode {
        vec![reencode, true]
    } else {
        vec![reencode]
    }
}

/// The encodings tried, in order, for the merge: a stream copy, then a
/// re-encode when the fallback is on.
pub open spec fn merge_attempts_spec(fallback_reencode: bool) -> Seq<bool> {
    if fallback_reencode {
        seq![false, true]
    } else {
        seq![false]
    }
}

/// The encodings tried, in order, for the merge.
pub fn merge_attempts(fallback_reencode: bool) -> (r: Vec<bool>)
    ensures
        r@ == merge_attempts_spec(fallback_reencode),
{
    if fallback_reencode {
        vec![false, true]
    } else {
        vec![false]
    }
}

/// The encoding arguments of a trim: an H.264 re-encode with the
/// capability's encoder (CRF 20, x264 preset `medium`) and AAC audio, or a
/// video copy with resampled AAC audio and reset timestamps.
pub open spec fn encode_args_spec(reencode: bool, caps: CapsModel) -> Seq<Seq<char>> {
    if reencode {
        crf_encode_args_spec(caps, 20, "medium"@) + seq![
            "-c:a"@,
            "aac"@,
            "-b:a"@,
            "192k"@,
            "-movflags"@,
            "+faststart"@,
        ]
    } else {
        seq![
            "-c:v"@,
            "copy"@,
            "-c:a"@,
            "aac"@,
            "-b:a"@,
            "192k"@,
            "-af"@,
            "aresample=async=1:first_pts=0"@,
            "-reset_timestamps"@,
            "1"@,
            "-movflags"@,
            "+faststart"@,
        ]
    }
}

/// The FFmpeg arguments that write `duration` from `start` of `input` to
/// `output`; a re-encode decodes with the capability's acceleration method,
/// if any.
pub open spec fn trim_args_spec(
    start: Seq<char>,
    input: Seq<char>,
    duration: Seq<char>,
    output: Seq<char>,
    reencode: bool,
    caps: CapsModel,
) -> Seq<Seq<char>> {
    let base = seq![
        "-hide_banner"@,
        "-y"@,
        "-ss"@,
        start,
        "-i"@,
        input,
        "-t"@,
        duration,
        "-map"@,
        "0:v:0"@,
        "-map"@,
        "0:a:0?"@,
        "-sn"@,
        "-dn"@,
    ] + encode_args_spec(reencode, caps) + seq![output];
    if reencode {
        with_hwaccel(base, caps.2)
    } else {
        base
    }
}

fn push_encode_args(args: &mut Vec<String>, reencode: bool, caps: &HwAccelCapabilities)
    ensures
        final(args).deep_view() == old(args).deep_view() + encode_args_spec(reencode, caps@),
{
    if reencode {
        append_crf_encode_args(args, caps, 20, "medium");
        push_str(args, "-c:a");
        push_str(args, "aac");
        push_str(args, "-b:a");
        push_str(args, "192k");
        push_str(args, "-movflags");
        push_str(args, "+faststart");
    } else {
        push_str(args, "-c:v");
        push_str(args, "copy");
        push_str(args, "-c:a");
        push_str(args, "aac");
        push_str(args, "-b:a");
        push_str(args, "192k");
        push_str(args, "-af");
        push_str(args, "aresample=async=1:first_pts=0");
        push_str(args, "-reset_timestamps");
        push_str(args, "1");
        push_str(args, "-movflags");
        push_str(args, "+faststart");
    }
    assert(args.deep_view() =~= old(args).deep_view() + encode_args_spec(reencode, caps@));
}

/// The FFmpeg arguments that write `duration` from `start` of `input` to `output`.
pub fn trim_args(
    start: &str,
    input: &str,
    duration: &str,
    output: &str,
    reencode: bool,
    caps: &HwAccelCapabilities,
) -> (r: Vec<String>)
    ensures
        r.deep_view() == trim_args_spec(start@, input@, duration@, output@, reencode, caps@),
{
    let mut args: Vec<String> = Vec::new();
    push_str(&mut args, "-hide_banner");
    push_str(&mut args, "-y");
    push_str(&mut args, "-ss");
    push_str(&mut args, start);
    push_str(&mut args, "-i");
    push_str(&mut args, input);
    push_str(&mut args, "-t");
    push_str(&mut args, duration);
    push_str(&mut args, "-map");
    push_str(&mut args, "0:v:0");
    push_str(&mut args, "-map");
    push_str(&mut args, "0:a:0?");
    push_str(&mut args, "-sn");
    push_str(&mut args, "-dn");
    push_encode_args(&mut args, reencode, caps);
    push_str(&mut args, output);
    assert(args.deep_view() =~= seq![
        "-hide_banner"@,
        "-y"@,
        "-ss"@,
        start@,
        "-i"@,
        input@,
        "-t"@,
        duration@,
        "-map"@,
        "0:v:0"@,
        "-map"@,
        "0:a:0?"@,
        "-sn"@,
        "-dn"@,
    ] + encode_args_spec(reencode, caps@) + seq![output@]);
    if reencode {
        insert_hwaccel_before_input(&mut args, caps);
    }
    args
}

/// The FFmpeg run that trims one range of `input` (start and duration as
/// rendered timestamps) into `output`.
pub fn trim_command(
    context: &AppContext,
    input: &str,
    start: &str,
    duration: &str,
    output: &str,
    reencode: bool,
    caps: &HwAccelCapabilities,
) -> (spec: ProcessSpec)
    ensures
        spec@ == (
            context.ffmpeg_bin@,
            trim_args_spec(start@, input@, duration@, output@, reencode, caps@),
        ),
{
    context.ffmpeg(trim_args(start, input, duration, output, reencode, caps))
}

/// The file name of the part at `index`: `part_NNN.mp4`.
pub open spec fn part_file_name(index: nat) -> Seq<char> {
    "part_"@ + dec_padded(index, 3) + ".mp4"@
}

/// The temporary file of the part at `index`: its file name in `temp_dir`.
pub open spec fn part_file_spec(temp_dir: Seq<char>, index: nat) -> Seq<char> {
    path_join(temp_dir, part_file_name(index))
}

/// The part files and the FFmpeg runs that extract each range (rendered
/// start and duration) of `input` into its part file.
pub fn build_extract_specs(
    context: &AppContext,
    input: &str,
    segments: &[(String, String)],
    temp_dir: &str,
    reencode: bool,
    caps: &HwAccelCapabilities,
) -> (r: (Vec<String>, Vec<ProcessSpec>))
    ensures
        r.0@.len() == segments@.len(),
        r.1@.len() == segments@.len(),
        forall|i: int|
            0 <= i < segments@.len() ==> (#[trigger] r.0@[i])@ == part_file_spec(temp_dir@, i as nat)
                && r.1@[i]@ == (
                context.ffmpeg_bin@,
                trim_args_spec(
                    segments@[i].0@,
                    input@,
                    segments@[i].1@,
                    part_file_spec(temp_dir@, i as nat),
                    reencode,
                    caps@,
                ),
            ),
{
    let mut files: Vec<String> = Vec::new();
    let mut specs: Vec<ProcessSpec> = Vec::new();
    let mut index: usize = 0;
    while index < segments.len()
        invariant
            index <= segments.len(),
            files@.len() == index,
            specs@.len() == index,
            forall|i: int|
                0 <= i < index ==> (#[trigger] files@[i])@ == part_file_spec(temp_dir@, i as nat)
                    && specs@[i]@ == (
                    context.ffmpeg_bin@,
                    trim_args_spec(
                        segments@[i].0@,
                        input@,
                        segments@[i].1@,
                        part_file_spec(temp_dir@, i as nat),
                        reencode,
                        caps@,
                    ),
                ),
        decreases segments.len() - index,
    {
        let mut name = concat("part_", u64_to_dec_padded(index as u64, 3).as_str());
        name.append(".mp4");
        let part_file = join_path(temp_dir, name.as_str());
        let (start, duration) = (&segments[index].0, &segments[index].1);
        let spec = trim_command(
            context,
            input,
            start.as_str(),
            duration.as_str(),
            part_file.as_str(),
            reencode,
            caps,
        );
        files.push(part_file);
        specs.push(spec);
        index = index + 1;
    }
    (files, specs)
}

/// One line of a concat list: `file '<path>'`, quoting `'` as the shell does.
pub open spec fn concat_entry(file: Seq<char>) -> Seq<char> {
    "file '"@ + replace_char_spec(file, '\'', "'\\''"@) + "'\n"@
}

/// The concat list naming each part file in order.
pub open spec fn concat_content_spec(files: Seq<Seq<char>>) -> Seq<char>
    decreases files.len(),
{
    if files.len() == 0 {
        seq![]
    } else {
        concat_content_spec(files.drop_last()) + concat_entry(files.last())
    }
}

/// Where the concat list is written in the temporary directory, and what it holds.
pub fn concat_list(temp_dir: &str, files: &[String]) -> (r: (String, String))
    ensures
        r.0@ == path_join(temp_dir@, "concat.txt"@),
        r.1@ == concat_content_spec(files@.map_values(|f: String| f@)),
{
    let path = join_path(temp_dir, "concat.txt");
    let ghost fv = files@.map_values(|f: String| f@);
    let mut content = String::new();
    let mut i: usize = 0;
    while i < files.len()
        invariant
            i <= files.len(),
            fv == files@.map_values(|f: String| f@),
            content@ == concat_content_spec(fv.take(i as int)),
        decreases files.len() - i,
    {
        assert(fv.take(i + 1).drop_last() =~= fv.take(i as int));
        content.append("file '");
        content.append(replace_char(files[i].as_str(), '\'', "'\\''").as_str());
        content.append("'\n");
        assert(content@ =~= concat_content_spec(fv.take(i + 1)));
        i = i + 1;
    }
    assert(fv.take(files.len() as int) =~= fv);
    (path, content)
}

/// The FFmpeg arguments that merge the parts that a concat list names into
/// `output`: a stream copy, or an H.264 re-encode with the capability's
/// encoder (CRF 20, x264 preset `medium`), decoded with its acceleration
/// method if any, and AAC audio.
pub open spec fn merge_args_spec(
    concat_list: Seq<char>,
    output: Seq<char>,
    reencode: bool,
    caps: CapsModel,
) -> Seq<Seq<char>> {
    let base = merge_input_args_spec(concat_list) + (if reencode {
        crf_encode_args_spec(caps, 20, "medium"@) + seq![
            "-c:a"@,
            "aac"@,
            "-b:a"@,
            "192k"@,
        ]
    } else {
        seq!["-c"@, "copy"@]
    }) + seq!["-movflags"@, "+faststart"@, output];
    if reencode {
        with_hwaccel(base, caps.2)
    } else {
        base
    }
}

/// The concat input and stream selection of a merge.
pub open spec fn merge_input_args_spec(concat_list: Seq<char>) -> Seq<Seq<char>> {
    seq![
        "-hide_banner"@,
        "-y"@,
        "-f"@,
        "concat"@,
        "-safe"@,
        "0"@,
        "-i"@,
        concat_list,
        "-map"@,
        "0:v:0"@,
        "-map"@,
        "0:a:0?"@,
        "-sn"@,
        "-dn"@,
    ]
}

/// The FFmpeg run that merges the parts that a concat list names into `output`.
pub fn merge_command(
    context: &AppContext,
    concat_list: &str,
    output: &str,
    reencode: bool,
    caps: &HwAccelCapabilities,
) -> (spec: ProcessSpec)
    ensures
        spec@ == (context.ffmpeg_bin@, merge_args_spec(concat_list@, output@, reencode, caps@)),
{
    let mut args: Vec<String> = Vec::new();
    push_str(&mut args, "-hide_banner");
    push_str(&mut args, "-y");
    push_str(&mut args, "-f");
    push_str(&mut args, "concat");
    push_str(&mut args, "-safe");
    push_str(&mut args, "0");
    push_str(&mut args, "-i");
    push_str(&mut args, concat_list);
    push_str(&mut args, "-map");
    push_str(&mut args, "0:v:0");
    push_str(&mut args, "-map");
    push_str(&mut args, "0:a:0?");
    push_str(&mut args, "-sn");
    push_str(&mut args, "-dn");
    let ghost head = args.deep_view();
    assert(head =~= merge_input_args_spec(concat_list@));
    if reencode {
        append_crf_encode_args(&mut args, caps, 20, "medium");
        push_str(&mut args, "-c:a");
        push_str(&mut args, "aac");
        push_str(&mut args, "-b:a");
        push_str(&mut args, "192k");
    } else {
        push_str(&mut args, "-c");
        push_str(&mut args, "copy");
    }
    push_str(&mut args, "-movflags");
    push_str(&mut args, "+faststart");
    push_str(&mut args, output);
    assert(args.deep_view() =~= merge_input_args_spec(concat_list@) + (if reencode {
        crf_encode_args_spec(caps@, 20, "medium"@) + seq![
            "-c:a"@,
            "aac"@,
            "-b:a"@,
            "192k"@,
        ]
    } else {
        seq!["-c"@, "copy"@]
    }) + seq!["-movflags"@, "+faststart"@, output@]);
    if reencode {
        insert_hwaccel_before_input(&mut args, caps);
    }
    context.ffmpeg(args)
}

/// The start and end texts of a `START-END` range, split at the first `-`;
/// refused when there is none.
pub fn split_segment(value: &str) -> (r: Result<(String, String), FfxError>)
    ensures
        match split_once_spec(value@, '-') {
            Some((a, b)) => r matches Ok((s, e)) && s@ == a && e@ == b,
            None => r matches Err(FfxError::InvalidSegment(v)) && v@ == value@,
        },
{
    match split_once_char(value, '-') {
        Some(parts) => Ok(parts),
        None => Err(FfxError::InvalidSegment(value.to_string())),
    }
}

/// The numeric fields of a timestamp, most significant first: the trimmed
/// `:`-separated fields when it has a `:` (at most three), else the whole
/// trimmed text.
pub open spec fn timestamp_fields_spec(value: Seq<char>) -> Option<Seq<Seq<char>>> {
    if value.contains(':') {
        let parts = split_spec(value, ':');
        if parts.len() > 3 {
            None
        } else {
            Some(parts.map_values(|p: Seq<char>| trim_spec(p)))
        }
    } else {
        Some(seq![trim_spec(value)])
    }
}

/// The numeric fields of a timestamp (`HH:MM:SS`, `MM:SS` or seconds), each
/// trimmed; refused when there are more than three. The caller reads each
/// field as seconds-valued decimal and folds them base 60.
pub fn timestamp_fields(value: &str) -> (r: Result<Vec<String>, FfxError>)
    ensures
        match timestamp_fields_spec(value@) {
            Some(fields) => r matches Ok(v) && v.deep_view() == fields,
            None => r matches Err(FfxError::InvalidTimestamp(v)) && v@ == value@,
        },
{
    if contains_char(value, ':') {
        let parts = split_char(value, ':');
        if parts.len() > 3 {
            return Err(FfxError::InvalidTimestamp(value.to_string()));
        }
        let ghost pv = parts.deep_view();
        let mut fields: Vec<String> = Vec::new();
        let mut i: usize = 0;
        while i < parts.len()
            invariant
                i <= parts.len(),
                pv == parts.deep_view(),
                fields.deep_view() =~= pv.take(i as int).map_values(|p: Seq<char>| trim_spec(p)),
            decreases parts.len() - i,
        {
            let t = trim(parts[i].as_str());
            let ghost before = fields.deep_view();
            let ghost tv = t@;
            fields.push(t);
            assert(fields.deep_view() =~= before.push(tv));
            assert(pv.take(i + 1) =~= pv.take(i as int).push(pv[i as int]));
            assert(pv.take(i + 1).map_values(|p: Seq<char>| trim_spec(p)) =~= pv.take(
                i as int,
            ).map_values(|p: Seq<char>| trim_spec(p)).push(trim_spec(pv[i as int])));
            i = i + 1;
        }
        assert(pv.take(parts.len() as int) =~= pv);
        Ok(fields)
    } else {
        let mut fields: Vec<String> = Vec::new();
        fields.push(trim(value));
        assert(fields.deep_view() =~= seq![trim_spec(value@)]);
        Ok(fields)
    }
}

/// The range given by `--from` and `--to`, used when no `--segment` is
/// given; refused when either is missing.
pub fn range_ends(args: &CutArgs) -> (r: Result<(String, String), FfxError>)
    ensures
        match (args.from, args.to) {
            (Some(f), Some(t)) => r matches Ok((a, b)) && a@ == f@ && b@ == t@,
            _ => r == Err::<(String, String), FfxError>(FfxError::MissingRange),
        },
{
    let from = match &args.from {
        Some(f) => f,
        None => {
            return Err(FfxError::MissingRange);
        },
    };
    let to = match &args.to {
        Some(t) => t,
        None => {
            return Err(FfxError::MissingRange);
        },
    };
    Ok((from.clone(), to.clone()))
}

/// Refuses an output without audio when the input has audio.
pub fn check_output_audio(input_audio_streams: usize, output_audio_streams: usize) -> (r: Result<
    (),
    FfxError,
>)
    ensures
        (input_audio_streams > 0 && output_audio_streams == 0) ==> r == Err::<(), FfxError>(
            FfxError::OutputMissingAudio,
        ),
        !(input_audio_streams > 0 && output_audio_streams == 0) ==> r is Ok,
{
    if input_audio_streams > 0 && output_audio_streams == 0 {
        Err(FfxError::OutputMissingAudio)
    } else {
        Ok(())
    }
}

/// What a checked run's output is held against: the duration of one
/// segment, or the total of all segments.
#[derive(Debug, Clone, Copy, PartialEq, Eq, Structural)]
pub enum CheckTarget {
    Segment(usize),
    Total,
}

/// What the caller does next for an input being cut.
#[derive(Debug)]
pub enum CutAction {
    /// Create the parent directory of this output.
    PrepareOutput(String),
    /// Create a temporary directory and answer with its path.
    MakeTempDir,
    /// Run these steps in order.
    RunPlan(Vec<ProcessSpec>),
    /// Write this content to this file.
    WriteFile(String, String),
    /// Print the warning if any, run the step, then check its output
    /// against the target's duration and the input's audio.
    RunChecked { spec: ProcessSpec, output: String, target: CheckTarget, warning: Option<String> },
    /// The input is done.
    Finish,
    /// Stop with this error, or with the failure just reported.
    Abort(Option<FfxError>),
}

/// What the caller reports of the last action.
#[derive(Debug)]
pub enum CutEvent {
    Succeeded,
    Failed,
    TempDirReady(String),
}

/// Where the cutting of an input stands.
#[derive(Debug)]
pub enum CutState {
    Start,
    Preparing { index: usize, output: String },
    Trimming { index: usize, output: String, attempt: usize },
    PreparingMerge { output: String },
    AwaitingTempDir { output: String },
    Extracting { output: String, temp_dir: String, files: Vec<String> },
    WritingList { output: String, list: String },
    Merging { output: String, list: String, attempt: usize },
    Stopped,
}

/// The value of an action.
pub enum ActionModel {
    PrepareOutput(Seq<char>),
    MakeTempDir,
    RunPlan(Seq<(Seq<char>, Seq<Seq<char>>)>),
    WriteFile(Seq<char>, Seq<char>),
    RunChecked {
        spec: (Seq<char>, Seq<Seq<char>>),
        output: Seq<char>,
        target: CheckTarget,
        warning: Option<Seq<char>>,
    },
    Finish,
    Abort(Option<FfxError>),
}

/// The value of an event.
pub enum EventModel {
    Succeeded,
    Failed,
    TempDirReady(Seq<char>),
}

/// The value of a state.
pub enum StateModel {
    Start,
    Preparing { index: nat, output: Seq<char> },
    Trimming { index: nat, output: Seq<char>, attempt: nat },
    PreparingMerge { output: Seq<char> },
    AwaitingTempDir { output: Seq<char> },
    Extracting { output: Seq<char>, temp_dir: Seq<char>, files: Seq<Seq<char>> },
    WritingList { output: Seq<char>, list: Seq<char> },
    Merging { output: Seq<char>, list: Seq<char>, attempt: nat },
    Stopped,
}

impl View for CutAction {
    type V = ActionModel;

    open spec fn view(&self) -> ActionModel {
        match self {
            CutAction::PrepareOutput(p) => ActionModel::PrepareOutput(p@),
            CutAction::MakeTempDir => ActionModel::MakeTempDir,
            CutAction::RunPlan(specs) => ActionModel::RunPlan(specs@.map_values(|s: ProcessSpec| s@)),
            CutAction::WriteFile(p, c) => ActionModel::WriteFile(p@, c@),
            CutAction::RunChecked { spec, output, target, warning } => ActionModel::RunChecked {
                spec: spec@,
                output: output@,
                target: *target,
                warning: warning.deep_view(),
            },
            CutAction::Finish => ActionModel::Finish,
            CutAction::Abort(e) => ActionModel::Abort(*e),
        }
    }
}

impl View for CutEvent {
    type V = EventModel;

    open spec fn view(&self) -> EventModel {
        match self {
            CutEvent::Succeeded => EventModel::Succeeded,
            CutEvent::Failed => EventModel::Failed,
            CutEvent::TempDirReady(t) => EventModel::TempDirReady(t@),
        }
    }
}

impl View for CutState {
    type V = StateModel;

    open spec fn view(&self) -> StateModel {
        match self {
            CutState::Start => StateModel::Start,
            CutState::Preparing { index, output } => StateModel::Preparing {
                index: *index as nat,
                output: output@,
            },
            CutState::Trimming { index, output, attempt } => StateModel::Trimming {
                index: *index as nat,
                output: output@,
                attempt: *attempt as nat,
            },
            CutState::PreparingMerge { output } => StateModel::PreparingMerge { output: output@ },
            CutState::AwaitingTempDir { output } => StateModel::AwaitingTempDir { output: output@ },
            CutState::Extracting { output, temp_dir, files } => StateModel::Extracting {
                output: output@,
                temp_dir: temp_dir@,
                files: files.deep_view(),
            },
            CutState::WritingList { output, list } => StateModel::WritingList {
                output: output@,
                list: list@,
            },
            CutState::Merging { output, list, attempt } => StateModel::Merging {
                output: output@,
                list: list@,
                attempt: *attempt as nat,
            },
            CutState::Stopped => StateModel::Stopped,
        }
    }
}

/// What the cutting of an input is set up with.
pub struct JobModel {
    pub input: Seq<char>,
    pub output: Option<Seq<char>>,
    pub output_dir: Option<Seq<char>>,
    pub ranges: Seq<(Seq<char>, Seq<char>)>,
    pub mode: CutMode,
    pub trim_attempts: Seq<bool>,
    pub merge_attempts: Seq<bool>,
    pub caps: CapsModel,
}

/// The output path of the merged or single cut: `<stem>_cut.mp4`.
pub open spec fn cut_output_spec(job: JobModel) -> Seq<char> {
    output_path_spec(job.input, job.output, job.output_dir, "_cut"@, "mp4"@)
}

/// The output path of the segment at `index`: in split mode its own file
/// (the exact output only for the first), else the cut output.
pub open spec fn segment_output_spec(job: JobModel, index: nat) -> Result<Seq<char>, FfxError> {
    match job.mode {
        CutMode::Split { .. } => match job.output {
            Some(p) => if index == 0 {
                Ok(p)
            } else {
                Err(FfxError::OutputWithManySegments)
            },
            None => Ok(
                place_output(job.input, job.output_dir, segment_file_name(job.input, index, "mp4"@)),
            ),
        },
        _ => Ok(cut_output_spec(job)),
    }
}

/// The warning printed before a trim is retried with re-encoding.
pub open spec fn trim_warning_spec(input: Seq<char>) -> Seq<char> {
    "copy trim verification failed for "@ + input + "; retrying with re-encode"@
}

/// The warning printed before a merge is retried with re-encoding.
pub open spec fn merge_warning_spec(input: Seq<char>) -> Seq<char> {
    "concat copy verification failed for "@ + input + "; retrying with re-encode"@
}

/// Begins the segment at `index`: prepare its output, or finish when all
/// segments are done, or stop when it has no output path.
pub open spec fn start_segment(job: JobModel, index: nat) -> (StateModel, ActionModel) {
    if index >= job.ranges.len() {
        (StateModel::Stopped, ActionModel::Finish)
    } else {
        match segment_output_spec(job, index) {
            Ok(p) => (StateModel::Preparing { index, output: p }, ActionModel::PrepareOutput(p)),
            Err(e) => (StateModel::Stopped, ActionModel::Abort(Some(e))),
        }
    }
}

/// The checked trim of segment `index` with attempt `attempt` of the plan.
pub open spec fn trim_action(
    job: JobModel,
    ffmpeg: Seq<char>,
    index: nat,
    output: Seq<char>,
    attempt: nat,
) -> ActionModel {
    ActionModel::RunChecked {
        spec: (
            ffmpeg,
            trim_args_spec(
                job.ranges[index as int].0,
                job.input,
                job.ranges[index as int].1,
                output,
                job.trim_attempts[attempt as int],
                job.caps,
            ),
        ),
        output,
        target: CheckTarget::Segment(index as usize),
        warning: if attempt > 0 {
            Some(trim_warning_spec(job.input))
        } else {
            None
        },
    }
}

/// The checked merge with attempt `attempt` of the plan.
pub open spec fn merge_action(
    job: JobModel,
    ffmpeg: Seq<char>,
    output: Seq<char>,
    list: Seq<char>,
    attempt: nat,
) -> ActionModel {
    ActionModel::RunChecked {
        spec: (ffmpeg, merge_args_spec(list, output, job.merge_attempts[attempt as int], job.caps)),
        output,
        target: CheckTarget::Total,
        warning: if attempt > 0 {
            Some(merge_warning_spec(job.input))
        } else {
            None
        },
    }
}

/// The part files of the merge in `temp_dir`.
pub open spec fn part_files_spec(job: JobModel, temp_dir: Seq<char>) -> Seq<Seq<char>> {
    Seq::new(job.ranges.len(), |i: int| part_file_spec(temp_dir, i as nat))
}

/// The runs that extract every segment, re-encoded, to its part file.
pub open spec fn extract_plan_spec(job: JobModel, ffmpeg: Seq<char>, temp_dir: Seq<char>) -> Seq<
    (Seq<char>, Seq<Seq<char>>),
> {
    Seq::new(
        job.ranges.len(),
        |i: int|
            (
                ffmpeg,
                trim_args_spec(
                    job.ranges[i].0,
                    job.input,
                    job.ranges[i].1,
                    part_file_spec(temp_dir, i as nat),
                    true,
                    job.caps,
                ),
            ),
    )
}

/// The next state and action after `event`: trims run segment by segment
/// (each through its attempts until one checks out), merges extract the
/// parts, list them, and merge through the merge attempts; any failure
/// without an attempt left stops the input.
pub open spec fn cut_next(job: JobModel, ffmpeg: Seq<char>, state: StateModel, event: EventModel) -> (
    StateModel,
    ActionModel,
) {
    match state {
        StateModel::Start => match job.mode {
            CutMode::Merge => (
                StateModel::PreparingMerge { output: cut_output_spec(job) },
                ActionModel::PrepareOutput(cut_output_spec(job)),
            ),
            _ => start_segment(job, 0),
        },
        StateModel::Preparing { index, output } => match event {
            EventModel::Succeeded => (
                StateModel::Trimming { index, output, attempt: 0 },
                trim_action(job, ffmpeg, index, output, 0),
            ),
            _ => (StateModel::Stopped, ActionModel::Abort(None)),
        },
        StateModel::Trimming { index, output, attempt } => match event {
            EventModel::Succeeded => start_segment(job, index + 1),
            _ => if attempt + 1 < job.trim_attempts.len() {
                (
                    StateModel::Trimming { index, output, attempt: attempt + 1 },
                    trim_action(job, ffmpeg, index, output, attempt + 1),
                )
            } else {
                (StateModel::Stopped, ActionModel::Abort(None))
            },
        },
        StateModel::PreparingMerge { output } => match event {
            EventModel::Succeeded => (
                StateModel::AwaitingTempDir { output },
                ActionModel::MakeTempDir,
            ),
            _ => (StateModel::Stopped, ActionModel::Abort(None)),
        },
        StateModel::AwaitingTempDir { output } => match event {
            EventModel::TempDirReady(temp_dir) => (
                StateModel::Extracting {
                    output,
                    temp_dir,
                    files: part_files_spec(job, temp_dir),
                },
                ActionModel::RunPlan(extract_plan_spec(job, ffmpeg, temp_dir)),
            ),
            _ => (StateModel::Stopped, ActionModel::Abort(None)),
        },
        StateModel::Extracting { output, temp_dir, files } => match event {
            EventModel::Succeeded => (
                StateModel::WritingList { output, list: path_join(temp_dir, "concat.txt"@) },
                ActionModel::WriteFile(path_join(temp_dir, "concat.txt"@), concat_content_spec(files)),
            ),
            _ => (StateModel::Stopped, ActionModel::Abort(None)),
        },
        StateModel::WritingList { output, list } => match event {
            EventModel::Succeeded => if job.merge_attempts.len() > 0 {
                (
                    StateModel::Merging { output, list, attempt: 0 },
                    merge_action(job, ffmpeg, output, list, 0),
                )
            } else {
                (StateModel::Stopped, ActionModel::Finish)
            },
            _ => (StateModel::Stopped, ActionModel::Abort(None)),
        },
        StateModel::Merging { output, list, attempt } => match event {
            EventModel::Succeeded => (StateModel::Stopped, ActionModel::Finish),
            _ => if attempt + 1 < job.merge_attempts.len() {
                (
                    StateModel::Merging { output, list, attempt: attempt + 1 },
                    merge_action(job, ffmpeg, output, list, attempt + 1),
                )
            } else {
                (StateModel::Stopped, ActionModel::Abort(None))
            },
        },
        StateModel::Stopped => (StateModel::Stopped, ActionModel::Finish),
    }
}

/// The cutting of one input, stepped by the caller through its actions.
pub struct CutJob {
    input: String,
    output: OutputOptions,
    ranges: Vec<(String, String)>,
    mode: CutMode,
    trim_plan: Vec<bool>,
    merge_plan: Vec<bool>,
    caps: HwAccelCapabilities,
    state: CutState,
}

/// Whether a state's indices fit the job they belong to, which has at
/// least one attempt of each kind.
pub open spec fn state_fits(job: JobModel, state: StateModel) -> bool {
    job.trim_attempts.len() > 0 && job.merge_attempts.len() > 0 && match state {
        StateModel::Preparing { index, .. } => index < job.ranges.len(),
        StateModel::Trimming { index, attempt, .. } => index < job.ranges.len() && attempt
            < job.trim_attempts.len(),
        StateModel::Extracting { files, .. } => files.len() == job.ranges.len(),
        StateModel::Merging { attempt, .. } => attempt < job.merge_attempts.len(),
        _ => true,
    }
}

impl CutJob {
    /// What the job is set up with.
    pub closed spec fn job_model(&self) -> JobModel {
        JobModel {
            input: self.input@,
            output: self.output.output.deep_view(),
            output_dir: self.output.output_dir.deep_view(),
            ranges: self.ranges@.map_values(|r: (String, String)| (r.0@, r.1@)),
            mode: self.mode,
            trim_attempts: self.trim_plan@,
            merge_attempts: self.merge_plan@,
            caps: self.caps@,
        }
    }

    /// Where the job stands.
    pub closed spec fn state_model(&self) -> StateModel {
        self.state@
    }

    /// The cutting of `input` into the given ranges (each a rendered start
    /// and duration), in the mode and with the attempts that the options give;
    /// re-encodes use the encoder of `caps`.
    pub fn new(args: &CutArgs, input: &str, ranges: Vec<(String, String)>, caps: HwAccelCapabilities) -> (job: Self)
        ensures
            job.job_model() == (JobModel {
                input: input@,
                output: args.output.output.deep_view(),
                output_dir: args.output.output_dir.deep_view(),
                ranges: ranges@.map_values(|r: (String, String)| (r.0@, r.1@)),
                mode: cut_mode_spec(args.split, ranges@.len()),
                trim_attempts: trim_attempts_spec(
                    cut_mode_spec(args.split, ranges@.len()) == CutMode::Split { precise: true },
                    args.reencode,
                    args.fallback_reencode,
                ),
                merge_attempts: merge_attempts_spec(args.fallback_reencode),
                caps: caps@,
            }),
            job.state_model() == StateModel::Start,
            state_fits(job.job_model(), job.state_model()),
    {
        let mode = cut_mode(args.split, ranges.len());
        let precise = match mode {
            CutMode::Split { precise } => precise,
            _ => false,
        };
        let output = OutputOptions {
            output: clone_opt(&args.output.output),
            output_dir: clone_opt(&args.output.output_dir),
        };
        CutJob {
            input: input.to_string(),
            output,
            ranges,
            mode,
            trim_plan: trim_attempts(precise, args.reencode, args.fallback_reencode),
            merge_plan: merge_attempts(args.fallback_reencode),
            caps,
            state: CutState::Start,
        }
    }

    fn segment_output(&self, index: usize) -> (r: Result<String, FfxError>)
        requires
            index < usize::MAX,
        ensures
            match segment_output_spec(self.job_model(), index as nat) {
                Ok(p) => r matches Ok(q) && q@ == p,
                Err(e) => r == Err::<String, FfxError>(e),
            },
    {
        match self.mode {
            CutMode::Split { .. } => build_segment_output_path(
                self.input.as_str(),
                &self.output,
                index,
                "mp4",
            ),
            _ => build_output_path(self.input.as_str(), &self.output, "_cut", "mp4"),
        }
    }

    fn start_segment(&self, index: usize) -> (r: (CutState, CutAction))
        ensures
            (r.0@, r.1@) == start_segment(self.job_model(), index as nat),
    {
        if index >= self.ranges.len() {
            return (CutState::Stopped, CutAction::Finish);
        }
        match self.segment_output(index) {
            Ok(p) => {
                let q = p.clone();
                (CutState::Preparing { index, output: p }, CutAction::PrepareOutput(q))
            },
            Err(e) => (CutState::Stopped, CutAction::Abort(Some(e))),
        }
    }

    fn trim_action(&self, context: &AppContext, index: usize, output: &str, attempt: usize) -> (r:
        CutAction)
        requires
            index < self.ranges@.len(),
            attempt < self.trim_plan@.len(),
        ensures
            r@ == trim_action(self.job_model(), context.ffmpeg_bin@, index as nat, output@, attempt as nat),
    {
        let range = &self.ranges[index];
        let spec = trim_command(
            context,
            self.input.as_str(),
            range.0.as_str(),
            range.1.as_str(),
            output,
            self.trim_plan[attempt],
            &self.caps,
        );
        let warning = if attempt > 0 {
            let mut w = concat("copy trim verification failed for ", self.input.as_str());
            w.append("; retrying with re-encode");
            Some(w)
        } else {
            None
        };
        CutAction::RunChecked {
            spec,
            output: output.to_string(),
            target: CheckTarget::Segment(index),
            warning,
        }
    }

    fn merge_action(&self, context: &AppContext, output: &str, list: &str, attempt: usize) -> (r:
        CutAction)
        requires
            attempt < self.merge_plan@.len(),
        ensures
            r@ == merge_action(self.job_model(), context.ffmpeg_bin@, output@, list@, attempt as nat),
    {
        let spec = merge_command(context, list, output, self.merge_plan[attempt], &self.caps);
        let warning = if attempt > 0 {
            let mut w = concat("concat copy verification failed for ", self.input.as_str());
            w.append("; retrying with re-encode");
            Some(w)
        } else {
            None
        };
        CutAction::RunChecked { spec, output: output.to_string(), target: CheckTarget::Total, warning }
    }

    /// Takes the outcome of the last action and gives the next one.
    pub fn step(&mut self, context: &AppContext, event: CutEvent) -> (action: CutAction)
        requires
            state_fits(old(self).job_model(), old(self).state_model()),
        ensures
            final(self).job_model() == old(self).job_model(),
            (final(self).state_model(), action@) == cut_next(
                old(self).job_model(),
                context.ffmpeg_bin@,
                old(self).state_model(),
                event@,
            ),
            state_fits(final(self).job_model(), final(self).state_model()),
    {
        let mut state = CutState::Stopped;
        std::mem::swap(&mut state, &mut self.state);
        assert(state@ == old(self).state_model());
        assert(self.job_model() == old(self).job_model());
        assert(self.ranges@.len() == self.job_model().ranges.len());
        assert(self.trim_plan@.len() == self.job_model().trim_attempts.len());
        assert(self.merge_plan@.len() == self.job_model().merge_attempts.len());
        let ghost sm = state@;
        let (next, action) = match state {
            CutState::Start => match self.mode {
                CutMode::Merge => match build_output_path(self.input.as_str(), &self.output, "_cut", "mp4") {
                    Ok(p) => {
                        let q = p.clone();
                        (CutState::PreparingMerge { output: p }, CutAction::PrepareOutput(q))
                    },
                    Err(e) => (CutState::Stopped, CutAction::Abort(Some(e))),
                },
                _ => self.start_segment(0),
            },
            CutState::Preparing { index, output } => match event {
                CutEvent::Succeeded => {
                    let action = self.trim_action(context, index, output.as_str(), 0);
                    (CutState::Trimming { index, output, attempt: 0 }, action)
                },
                _ => (CutState::Stopped, CutAction::Abort(None)),
            },
            CutState::Trimming { index, output, attempt } => match event {
                CutEvent::Succeeded => {
                    assert(sm == StateModel::Trimming {
                        index: index as nat,
                        output: output@,
                        attempt: attempt as nat,
                    });
                    let n = self.ranges.len();
                    assert(index < n);
                    self.start_segment(index + 1)
                },
                _ => if attempt < self.trim_plan.len() - 1 {
                    let action = self.trim_action(context, index, output.as_str(), attempt + 1);
                    (CutState::Trimming { index, output, attempt: attempt + 1 }, action)
                } else {
                    (CutState::Stopped, CutAction::Abort(None))
                },
            },
            CutState::PreparingMerge { output } => match event {
                CutEvent::Succeeded => (CutState::AwaitingTempDir { output }, CutAction::MakeTempDir),
                _ => (CutState::Stopped, CutAction::Abort(None)),
            },
            CutState::AwaitingTempDir { output } => match event {
                CutEvent::TempDirReady(temp_dir) => {
                    let (files, specs) = build_extract_specs(
                        context,
                        self.input.as_str(),
                        self.ranges.as_slice(),
                        temp_dir.as_str(),
                        true,
                        &self.caps,
                    );
                    proof {
                        let job = self.job_model();
                        assert forall|i: int| 0 <= i < specs@.len() implies specs@.map_values(
                            |s: ProcessSpec| s@,
                        )[i] == extract_plan_spec(job, context.ffmpeg_bin@, temp_dir@)[i] by {
                            assert(files@[i]@ == part_file_spec(temp_dir@, i as nat));
                        }
                        assert forall|i: int| 0 <= i < files@.len() implies files.deep_view()[i]
                            == part_files_spec(job, temp_dir@)[i] by {
                            assert(files@[i]@ == part_file_spec(temp_dir@, i as nat));
                        }
                        assert(files.deep_view() =~= part_files_spec(job, temp_dir@));
                        assert(specs@.map_values(|s: ProcessSpec| s@) =~= extract_plan_spec(
                            job,
                            context.ffmpeg_bin@,
                            temp_dir@,
                        ));
                    }
                    (CutState::Extracting { output, temp_dir, files }, CutAction::RunPlan(specs))
                },
                _ => (CutState::Stopped, CutAction::Abort(None)),
            },
            CutState::Extracting { output, temp_dir, files } => match event {
                CutEvent::Succeeded => {
                    let (list, content) = concat_list(temp_dir.as_str(), files.as_slice());
                    assert(files@.map_values(|f: String| f@) =~= files.deep_view());
                    let list_copy = list.clone();
                    (CutState::WritingList { output, list }, CutAction::WriteFile(list_copy, content))
                },
                _ => (CutState::Stopped, CutAction::Abort(None)),
            },
            CutState::WritingList { output, list } => match event {
                CutEvent::Succeeded => if self.merge_plan.len() > 0 {
                    let action = self.merge_action(context, output.as_str(), list.as_str(), 0);
                    (CutState::Merging { output, list, attempt: 0 }, action)
                } else {
                    (CutState::Stopped, CutAction::Finish)
                },
                _ => (CutState::Stopped, CutAction::Abort(None)),
            },
            CutState::Merging { output, list, attempt } => match event {
                CutEvent::Succeeded => (CutState::Stopped, CutAction::Finish),
                _ => if attempt < self.merge_plan.len() - 1 {
                    let action = self.merge_action(context, output.as_str(), list.as_str(), attempt + 1);
                    (CutState::Merging { output, list, attempt: attempt + 1 }, action)
                } else {
                    (CutState::Stopped, CutAction::Abort(None))
                },
            },
            CutState::Stopped => (CutState::Stopped, CutAction::Finish),
        };
        self.state = next;
        action
    }
}

fn clone_opt(o: &Option<String>) -> (r: Option<String>)
    ensures
        r.deep_view() == o.deep_view(),
{
    match o {
        Some(s) => Some(s.clone()),
        None => None,
    }
}

} // verus!
