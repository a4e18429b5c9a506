//! Properties of the library that span its functions.
use vstd::prelude::*;

use crate::cli::{CompressArgs, Preset, ToMp4Args};
use crate::commands::compress::{
    bufsize_spec, compress_args_spec, compress_base_args_spec, max_height_spec, parse_kbps_spec,
};
use crate::commands::gif::{gif_args_spec, gif_filters_spec};
use crate::commands::to_mp4::{copy_args_spec, should_copy_spec};
use crate::commands::cut::{
    ActionModel, CheckTarget, EventModel, JobModel, StateModel, cut_next, merge_args_spec,
    merge_attempts_spec, merge_warning_spec, part_file_name, start_segment,
    state_fits, trim_action, trim_attempts_spec, encode_args_spec, trim_args_spec,
};
use crate::utils::ffmpeg::{StreamSummary, is_shell_safe, render_spec, shell_escape_spec};
use crate::utils::file::{output_options_error, segment_file_name};
use crate::utils::hwaccel::{
    CapsModel, NameSet, amf_quality_spec, bitrate_args_spec,
    h264_encode_args_spec, is_fast_preset_spec, nvenc_preset_spec, opt_pair, qsv_preset_spec,
    quality_args_spec, videotoolbox_q_spec, VideoEncoderKind, encoder_choice, pick_encoder_spec, pick_from, software_caps,
    first_offered, fallback_candidates,
};
use crate::utils::text::{
    dec, dec_padded, digits_value, is_digit, find_char, find_first, lemma_find_first, join_spec, lemma_dec, lemma_find_char,
    repeat_char, replace_char_spec, split_once_spec, trim_end_char_spec, ParseIntFailure,
};

verus! {

proof fn lemma_first_offered(candidates: Seq<Seq<char>>, hwaccels: Set<Seq<char>>)
    ensures
        first_offered(candidates, hwaccels) matches Some(m) ==> hwaccels.contains(m),
    decreases candidates.len(),
{
    if candidates.len() > 0 && !hwaccels.contains(candidates[0]) {
        lemma_first_offered(candidates.drop_first(), hwaccels);
    }
}

/// The encoder picked is one that FFmpeg lists, and so is the acceleration
/// method picked with it: the choice never names what is not offered.
pub proof fn law_picked_encoder_is_offered(encoders: Set<Seq<char>>, hwaccels: Set<Seq<char>>)
    ensures
        pick_encoder_spec(encoders, hwaccels).0 != VideoEncoderKind::Software ==> encoders.contains(
            pick_encoder_spec(encoders, hwaccels).1,
        ),
        pick_encoder_spec(encoders, hwaccels).2 matches Some(m) ==> hwaccels.contains(m),
{
    reveal_with_fuel(pick_from, 5);
    lemma_first_offered(fallback_candidates(VideoEncoderKind::VideoToolbox), hwaccels);
    lemma_first_offered(fallback_candidates(VideoEncoderKind::Nvenc), hwaccels);
    lemma_first_offered(fallback_candidates(VideoEncoderKind::Qsv), hwaccels);
    lemma_first_offered(fallback_candidates(VideoEncoderKind::Amf), hwaccels);
}

/// The software encoder `libx264` is chosen exactly when FFmpeg lists none
/// of the hardware H.264 encoders.
pub proof fn law_software_only_without_hardware_encoder(
    encoders: Set<Seq<char>>,
    hwaccels: Set<Seq<char>>,
)
    ensures
        pick_encoder_spec(encoders, hwaccels) == software_caps() <==> (forall|i: int|
            0 <= i < 4 ==> !encoders.contains(#[trigger] encoder_choice(i).0)),
{
    reveal_with_fuel(pick_from, 5);
    if forall|i: int| 0 <= i < 4 ==> !encoders.contains(#[trigger] encoder_choice(i).0) {
    } else {
        let i = choose|i: int| 0 <= i < 4 && encoders.contains(#[trigger] encoder_choice(i).0);
        assert(encoders.contains(encoder_choice(i).0));
    }
    assert(!encoders.contains(encoder_choice(0).0) ==> !encoders.contains("h264_videotoolbox"@));
}

/// The hardware encoders are preferred in table order: VideoToolbox, NVENC,
/// QSV, AMF. The first one listed is the one picked.
pub proof fn law_encoder_preference_order(
    encoders: Set<Seq<char>>,
    hwaccels: Set<Seq<char>>,
    i: int,
)
    requires
        0 <= i < 4,
        encoders.contains(encoder_choice(i).0),
        forall|j: int| 0 <= j < i ==> !encoders.contains(#[trigger] encoder_choice(j).0),
    ensures
        pick_encoder_spec(encoders, hwaccels).0 == encoder_choice(i).1,
        pick_encoder_spec(encoders, hwaccels).1 == encoder_choice(i).0,
{
    reveal_with_fuel(pick_from, 5);
    assert(!encoders.contains(encoder_choice(0).0) || i == 0);
    if i >= 2 {
        assert(!encoders.contains(encoder_choice(1).0));
    }
    if i >= 3 {
        assert(!encoders.contains(encoder_choice(2).0));
    }
}

/// A name set holds a name once it is inserted, and inserting leaves every
/// other name as it was.
pub proof fn law_name_set_read_after_insert(
    before: NameSet,
    after: NameSet,
    name: Seq<char>,
    other: Seq<char>,
)
    requires
        after@ == before@.insert(name),
    ensures
        after@.contains(name),
        other != name ==> after@.contains(other) == before@.contains(other),
{
}

/// A video bitrate rendered as `<kbps>k` reads back as the same number, so
/// the bitrate that target-size mode computes is always accepted when the
/// plan sizes the rate buffer from it.
pub proof fn law_bitrate_reads_back(kbps: nat)
    requires
        kbps <= u32::MAX,
    ensures
        parse_kbps_spec(dec(kbps) + "k"@) == Ok::<u32, ParseIntFailure>(kbps as u32),
{
    reveal_strlit("k");
    lemma_dec(kbps);
    let s = dec(kbps) + "k"@;
    assert(s.drop_last() =~= dec(kbps));
    assert(trim_end_char_spec(s, 'k') == trim_end_char_spec(dec(kbps), 'k'));
    assert(trim_end_char_spec(dec(kbps), 'k') == dec(kbps));
}

/// In target-size mode the rate buffer is twice the video bitrate that
/// the profile computes (`<kbps>k`).
pub proof fn law_target_size_buffer_is_twice_the_bitrate(kbps: nat)
    requires
        kbps * 2 <= u32::MAX,
    ensures
        bufsize_spec(Some(dec(kbps) + "k"@)) == Some(dec(kbps * 2) + "k"@),
{
    law_bitrate_reads_back(kbps);
}

/// A compression encodes with the encoder that was picked: its H.264
/// arguments start with `-c:v <encoder>` right after the input, and with a
/// decode acceleration method the input is preceded by `-hwaccel <method>`.
pub proof fn law_compress_uses_picked_encoder(
    args: CompressArgs,
    input: Seq<char>,
    video_bitrate: Option<Seq<char>>,
    caps: CapsModel,
)
    ensures
        ({
            let a = compress_args_spec(args, input, video_bitrate, caps);
            match caps.2 {
                None => a.len() >= 6 && a.take(6) == seq![
                    "-hide_banner"@,
                    "-y"@,
                    "-i"@,
                    input,
                    "-c:v"@,
                    caps.1,
                ],
                Some(h) => a.len() >= 8 && a.take(8) == seq![
                    "-hide_banner"@,
                    "-y"@,
                    "-hwaccel"@,
                    h,
                    "-i"@,
                    input,
                    "-c:v"@,
                    caps.1,
                ],
            }
        }),
{
    reveal_strlit("-hide_banner");
    reveal_strlit("-y");
    reveal_strlit("-i");
    let base = compress_base_args_spec(args, input, video_bitrate, caps);
    assert(base[0] == "-hide_banner"@);
    assert(base[1] == "-y"@);
    assert(base[2] == "-i"@);
    assert(base[0] != "-i"@);
    assert("-y"@[1] != "-i"@[1]);
    assert(base[1] != "-i"@);
    lemma_find_first(base, "-i"@);
    assert(find_first(base, "-i"@) == Some(2int));
    assert(base.len() >= 6);
    let a = compress_args_spec(args, input, video_bitrate, caps);
    match caps.2 {
        None => {
            assert(a.take(6) =~= seq!["-hide_banner"@, "-y"@, "-i"@, input, "-c:v"@, caps.1]);
        },
        Some(h) => {
            assert(a.take(8) =~= seq![
                "-hide_banner"@,
                "-y"@,
                "-hwaccel"@,
                h,
                "-i"@,
                input,
                "-c:v"@,
                caps.1,
            ]);
        },
    }
}

/// The flags that choose how H.264 rate is controlled: a target bitrate
/// (`-b:v`) or one of the constant-quality flags of the encoders.
pub open spec fn is_rate_control_flag(s: Seq<char>) -> bool {
    s == "-b:v"@ || is_quality_flag(s)
}

/// The constant-quality flags of the H.264 encoders.
pub open spec fn is_quality_flag(s: Seq<char>) -> bool {
    s == "-crf"@ || s == "-q:v"@ || s == "-cq:v"@ || s == "-global_quality"@ || s == "-qp_i"@
}

proof fn lemma_concat_lacks(a: Seq<Seq<char>>, b: Seq<Seq<char>>, x: Seq<char>)
    requires
        !a.contains(x),
        !b.contains(x),
    ensures
        !(a + b).contains(x),
{
    assert forall|i: int| 0 <= i < (a + b).len() implies (a + b)[i] != x by {
        if i < a.len() {
            assert(a[i] != x);
        } else {
            assert(b[i - a.len()] != x);
        }
    }
}

proof fn lemma_pair_lacks(p: Seq<char>, q: Seq<char>, x: Seq<char>)
    requires
        p != x,
        q != x,
    ensures
        !seq![p, q].contains(x),
{
    assert forall|i: int| 0 <= i < seq![p, q].len() implies seq![p, q][i] != x by {
        if i == 0 {
        } else {
        }
    }
}

proof fn lemma_opt_pair_lacks(flag: Seq<char>, value: Option<Seq<char>>, x: Seq<char>)
    requires
        flag != x,
        value matches Some(v) ==> v != x,
    ensures
        !opt_pair(flag, value).contains(x),
{
    match value {
        Some(v) => lemma_pair_lacks(flag, v, x),
        None => {
            assert(opt_pair(flag, value) =~= Seq::<Seq<char>>::empty());
        },
    }
}

/// A decimal rendering starts with a digit, so it is no flag.
proof fn lemma_dec_is_no_flag(n: nat, x: Seq<char>)
    requires
        x.len() > 0,
        x[0] == '-',
    ensures
        dec(n) != x,
{
    lemma_dec(n);
    assert(is_digit(dec(n)[0]));
}

/// The literals of the H.264 arguments, against the rate-control flags.
proof fn lemma_h264_literals()
    ensures
        !is_quality_flag("-c:v"@),
        !is_quality_flag("-b:v"@),
        !is_quality_flag("-maxrate"@),
        !is_quality_flag("-bufsize"@),
        !is_quality_flag("-allow_sw"@),
        !is_quality_flag("1"@),
        "-c:v"@ != "-b:v"@,
        "-preset"@ != "-b:v"@,
        "-crf"@ != "-b:v"@,
        "-q:v"@ != "-b:v"@,
        "-prio_speed"@ != "-b:v"@,
        "1"@ != "-b:v"@,
        "-rc:v"@ != "-b:v"@,
        "vbr"@ != "-b:v"@,
        "-cq:v"@ != "-b:v"@,
        "-global_quality"@ != "-b:v"@,
        "-rc"@ != "-b:v"@,
        "cqp"@ != "-b:v"@,
        "-qp_i"@ != "-b:v"@,
        "-qp_p"@ != "-b:v"@,
        "-quality"@ != "-b:v"@,
        "-b:v"@.len() == 4 && "-b:v"@[0] == '-',
{
    reveal_strlit("-c:v");
    reveal_strlit("-b:v");
    reveal_strlit("-maxrate");
    reveal_strlit("-bufsize");
    reveal_strlit("-allow_sw");
    reveal_strlit("1");
    reveal_strlit("-crf");
    reveal_strlit("-q:v");
    reveal_strlit("-cq:v");
    reveal_strlit("-global_quality");
    reveal_strlit("-qp_i");
    reveal_strlit("-preset");
    reveal_strlit("-prio_speed");
    reveal_strlit("-rc:v");
    reveal_strlit("vbr");
    reveal_strlit("-rc");
    reveal_strlit("cqp");
    reveal_strlit("-qp_p");
    reveal_strlit("-quality");
    assert("-maxrate"@.len() == 8 && "-bufsize"@.len() == 8);
    assert("-global_quality"@.len() == 15 && "-cq:v"@.len() == 5 && "-qp_i"@.len() == 5);
    assert("-crf"@.len() == 4 && "-q:v"@.len() == 4);
    assert("1"@.len() == 1 && "vbr"@.len() == 3 && "-rc"@.len() == 3 && "cqp"@.len() == 3);
    assert("-preset"@.len() == 7 && "-prio_speed"@.len() == 11 && "-rc:v"@.len() == 5);
    assert("-qp_p"@.len() == 5 && "-quality"@.len() == 8 && "-allow_sw"@.len() == 9);
    assert("-c:v"@.len() == 4 && "-b:v"@.len() == 4);
    assert("-c:v"@[2] != "-crf"@[2]);
    assert("-c:v"@[1] != "-q:v"@[1]);
    assert("-b:v"@[1] != "-crf"@[1]);
    assert("-b:v"@[1] != "-q:v"@[1]);
    assert("-c:v"@[1] != "-b:v"@[1]);
    assert("-crf"@[1] != "-b:v"@[1]);
    assert("-q:v"@[1] != "-b:v"@[1]);
}

/// The constant-quality arguments hold no `-b:v`, as long as the preset
/// handed in is not `-b:v`.
proof fn lemma_quality_lacks_bitrate(kind: VideoEncoderKind, crf: u8, preset: Option<Seq<char>>)
    requires
        preset matches Some(p) ==> p != "-b:v"@,
    ensures
        !quality_args_spec(kind, crf, preset).contains("-b:v"@),
{
    let x = "-b:v"@;
    lemma_h264_literals();
    let c = dec(crf as nat);
    lemma_dec_is_no_flag(crf as nat, x);
    match kind {
        VideoEncoderKind::Software => {
            lemma_opt_pair_lacks("-preset"@, preset, x);
            lemma_pair_lacks("-crf"@, c, x);
            lemma_concat_lacks(opt_pair("-preset"@, preset), seq!["-crf"@, c], x);
        },
        VideoEncoderKind::VideoToolbox => {
            let q = dec(videotoolbox_q_spec(crf as int) as nat);
            lemma_dec_is_no_flag(videotoolbox_q_spec(crf as int) as nat, x);
            lemma_pair_lacks("-q:v"@, q, x);
            let tail = if preset matches Some(p) && is_fast_preset_spec(p) {
                seq!["-prio_speed"@, "1"@]
            } else {
                seq![]
            };
            if preset matches Some(p) && is_fast_preset_spec(p) {
                lemma_pair_lacks("-prio_speed"@, "1"@, x);
            } else {
                assert(tail =~= Seq::<Seq<char>>::empty());
            }
            lemma_concat_lacks(seq!["-q:v"@, q], tail, x);
        },
        VideoEncoderKind::Nvenc => {
            reveal_strlit("p1");
            reveal_strlit("p3");
            reveal_strlit("p5");
            reveal_strlit("p7");
            reveal_strlit("-b:v");
            lemma_pair_lacks("-rc:v"@, "vbr"@, x);
            lemma_pair_lacks("-cq:v"@, c, x);
            lemma_concat_lacks(seq!["-rc:v"@, "vbr"@], seq!["-cq:v"@, c], x);
            assert(seq!["-rc:v"@, "vbr"@, "-cq:v"@, c] =~= seq!["-rc:v"@, "vbr"@] + seq![
                "-cq:v"@,
                c,
            ]);
            lemma_opt_pair_lacks("-preset"@, nvenc_preset_spec(preset), x);
            lemma_concat_lacks(
                seq!["-rc:v"@, "vbr"@, "-cq:v"@, c],
                opt_pair("-preset"@, nvenc_preset_spec(preset)),
                x,
            );
        },
        VideoEncoderKind::Qsv => {
            reveal_strlit("veryfast");
            reveal_strlit("veryslow");
            reveal_strlit("medium");
            reveal_strlit("-b:v");
            lemma_pair_lacks("-global_quality"@, c, x);
            lemma_opt_pair_lacks("-preset"@, qsv_preset_spec(preset), x);
            lemma_concat_lacks(
                seq!["-global_quality"@, c],
                opt_pair("-preset"@, qsv_preset_spec(preset)),
                x,
            );
        },
        VideoEncoderKind::Amf => {
            reveal_strlit("speed");
            reveal_strlit("quality");
            reveal_strlit("balanced");
            reveal_strlit("-b:v");
            lemma_pair_lacks("-rc"@, "cqp"@, x);
            lemma_pair_lacks("-qp_i"@, c, x);
            lemma_pair_lacks("-qp_p"@, c, x);
            lemma_concat_lacks(seq!["-rc"@, "cqp"@], seq!["-qp_i"@, c], x);
            let head = seq!["-rc"@, "cqp"@] + seq!["-qp_i"@, c];
            lemma_concat_lacks(head, seq!["-qp_p"@, c], x);
            assert(seq!["-rc"@, "cqp"@, "-qp_i"@, c, "-qp_p"@, c] =~= head + seq!["-qp_p"@, c]);
            lemma_opt_pair_lacks("-quality"@, amf_quality_spec(preset), x);
            lemma_concat_lacks(
                seq!["-rc"@, "cqp"@, "-qp_i"@, c, "-qp_p"@, c],
                opt_pair("-quality"@, amf_quality_spec(preset)),
                x,
            );
        },
    }
}

/// The bitrate arguments hold no constant-quality flag `x`, as long as no
/// bitrate handed in is `x`.
proof fn lemma_bitrate_lacks_quality(
    kind: VideoEncoderKind,
    video_bitrate: Seq<char>,
    maxrate: Option<Seq<char>>,
    bufsize: Option<Seq<char>>,
    x: Seq<char>,
)
    requires
        is_quality_flag(x),
        video_bitrate != x,
        maxrate matches Some(m) ==> m != x,
        bufsize matches Some(b) ==> b != x,
    ensures
        !bitrate_args_spec(kind, video_bitrate, maxrate, bufsize).contains(x),
{
    lemma_h264_literals();
    lemma_pair_lacks("-b:v"@, video_bitrate, x);
    lemma_opt_pair_lacks("-maxrate"@, maxrate, x);
    lemma_opt_pair_lacks("-bufsize"@, bufsize, x);
    let a = seq!["-b:v"@, video_bitrate];
    let b = opt_pair("-maxrate"@, maxrate);
    let c = opt_pair("-bufsize"@, bufsize);
    lemma_concat_lacks(a, b, x);
    lemma_concat_lacks(a + b, c, x);
    let tail = if kind == VideoEncoderKind::VideoToolbox {
        seq!["-allow_sw"@, "1"@]
    } else {
        seq![]
    };
    if kind == VideoEncoderKind::VideoToolbox {
        lemma_pair_lacks("-allow_sw"@, "1"@, x);
    } else {
        assert(tail =~= Seq::<Seq<char>>::empty());
    }
    lemma_concat_lacks(a + b + c, tail, x);
}

/// What `append_h264_encode_args` adds after the arguments already there
/// (which it keeps as they were): `-c:v <encoder>` first; `-b:v` exactly
/// when a target bitrate is given, and then none of the constant-quality
/// flags. This holds as long as no value handed in (encoder name, preset,
/// bitrates) is itself one of those flags.
pub proof fn law_h264_args_bitrate_or_quality(
    before: Seq<Seq<char>>,
    caps: CapsModel,
    crf: u8,
    preset: Option<Seq<char>>,
    video_bitrate: Option<Seq<char>>,
    maxrate: Option<Seq<char>>,
    bufsize: Option<Seq<char>>,
)
    requires
        !is_rate_control_flag(caps.1),
        preset matches Some(p) ==> !is_rate_control_flag(p),
        video_bitrate matches Some(v) ==> !is_rate_control_flag(v),
        maxrate matches Some(m) ==> !is_rate_control_flag(m),
        bufsize matches Some(b) ==> !is_rate_control_flag(b),
    ensures
        ({
            let a = h264_encode_args_spec(caps, crf, preset, video_bitrate, maxrate, bufsize);
            let after = before + a;
            &&& after.len() >= before.len() + 2
            &&& after.take(before.len() as int) == before
            &&& after[before.len() as int] == "-c:v"@
            &&& after[before.len() + 1int] == caps.1
            &&& a.contains("-b:v"@) <==> video_bitrate is Some
            &&& video_bitrate is Some ==> !a.contains("-crf"@) && !a.contains("-q:v"@)
                && !a.contains("-cq:v"@) && !a.contains("-global_quality"@) && !a.contains(
                "-qp_i"@,
            )
        }),
{
    let a = h264_encode_args_spec(caps, crf, preset, video_bitrate, maxrate, bufsize);
    let after = before + a;
    assert(after.take(before.len() as int) =~= before);
    lemma_h264_literals();
    let head = seq!["-c:v"@, caps.1];
    match video_bitrate {
        Some(v) => {
            let rest = bitrate_args_spec(caps.0, v, maxrate, bufsize);
            assert(a == head + rest);
            assert(a[2] == "-b:v"@);
            assert(a.contains("-b:v"@));
            assert forall|x: Seq<char>| is_quality_flag(x) implies !a.contains(x) by {
                lemma_pair_lacks("-c:v"@, caps.1, x);
                lemma_bitrate_lacks_quality(caps.0, v, maxrate, bufsize, x);
                lemma_concat_lacks(head, rest, x);
            }
            reveal_strlit("-crf");
            assert(is_quality_flag("-crf"@));
            assert(is_quality_flag("-q:v"@));
            assert(is_quality_flag("-cq:v"@));
            assert(is_quality_flag("-global_quality"@));
            assert(is_quality_flag("-qp_i"@));
        },
        None => {
            let rest = quality_args_spec(caps.0, crf, preset);
            assert(a == head + rest);
            lemma_pair_lacks("-c:v"@, caps.1, "-b:v"@);
            lemma_quality_lacks_bitrate(caps.0, crf, preset);
            lemma_concat_lacks(head, rest, "-b:v"@);
        },
    }
}

/// A segment range splits around its first `-`: the two texts with a `-`
/// between them give the range back, and the start holds no `-`.
pub proof fn law_segment_split_rejoins(value: Seq<char>)
    ensures
        split_once_spec(value, '-') matches Some((start, end)) ==> start + seq!['-'] + end == value
            && !start.contains('-'),
        split_once_spec(value, '-') is None ==> !value.contains('-'),
{
    lemma_find_char(value, '-');
    match find_char(value, '-') {
        Some(k) => {
            assert(value.take(k) + seq!['-'] + value.skip(k + 1) =~= value);
            assert forall|j: int| 0 <= j < value.take(k).len() implies value.take(k)[j] != '-' by {}
        },
        None => {},
    }
}

/// Accepted output options give an exact output path only for a single
/// input, and never together with an output directory.
pub proof fn law_output_only_for_single_input(
    input_count: nat,
    output: Option<Seq<char>>,
    output_dir: Option<Seq<char>>,
)
    requires
        output_options_error(input_count, output, output_dir) is None,
    ensures
        output is Some ==> input_count <= 1 && output_dir is None,
{
}

proof fn lemma_zeros_value(k: nat)
    ensures
        digits_value(repeat_char('0', k)) == 0,
    decreases k,
{
    if k > 0 {
        lemma_zeros_value((k - 1) as nat);
        assert(repeat_char('0', k).drop_last() =~= repeat_char('0', (k - 1) as nat));
    }
}

proof fn lemma_padded_value(z: Seq<char>, d: Seq<char>)
    requires
        digits_value(z) == 0,
    ensures
        digits_value(z + d) == digits_value(d),
    decreases d.len(),
{
    if d.len() == 0 {
        assert(z + d =~= z);
    } else {
        lemma_padded_value(z, d.drop_last());
        assert((z + d).drop_last() =~= z + d.drop_last());
        assert((z + d).last() == d.last());
    }
}

proof fn lemma_dec_padded_value(n: nat, width: nat)
    ensures
        digits_value(dec_padded(n, width)) == n,
{
    lemma_dec(n);
    if dec(n).len() < width {
        let k = (width - dec(n).len()) as nat;
        lemma_zeros_value(k);
        lemma_padded_value(repeat_char('0', k), dec(n));
    }
}

/// Zero-padded numbers name distinct numbers distinctly.
pub proof fn law_dec_padded_injective(a: nat, b: nat, width: nat)
    requires
        dec_padded(a, width) == dec_padded(b, width),
    ensures
        a == b,
{
    lemma_dec_padded_value(a, width);
    lemma_dec_padded_value(b, width);
}

proof fn lemma_middle_equal(p: Seq<char>, x: Seq<char>, y: Seq<char>, q: Seq<char>)
    requires
        p + x + q == p + y + q,
    ensures
        x == y,
{
    let s = p + x + q;
    assert((p + x + q).len() == (p + y + q).len());
    assert((p + x + q).len() == p.len() + x.len() + q.len());
    assert((p + y + q).len() == p.len() + y.len() + q.len());
    assert(x.len() == y.len());
    assert forall|k: int| 0 <= k < x.len() implies x[k] == y[k] by {
        assert(s[p.len() + k] == x[k]);
        assert((p + y + q)[p.len() + k] == y[k]);
    }
    assert(x =~= y);
}

/// Split cutting writes each segment of an input to a file of its own: two
/// segment indices give the same file name only when they are equal.
pub proof fn law_segment_file_names_distinct(input: Seq<char>, extension: Seq<char>, i: nat, j: nat)
    requires
        segment_file_name(input, i, extension) == segment_file_name(input, j, extension),
    ensures
        i == j,
{
    let p = crate::utils::file::stem_spec(input) + ".part"@;
    let q = "."@ + extension;
    assert(segment_file_name(input, i, extension) =~= p + dec_padded(i + 1, 2) + q);
    assert(segment_file_name(input, j, extension) =~= p + dec_padded(j + 1, 2) + q);
    lemma_middle_equal(p, dec_padded(i + 1, 2), dec_padded(j + 1, 2), q);
    law_dec_padded_injective(i + 1, j + 1, 2);
}

/// Merging extracts each segment to a part file of its own: two part
/// indices give the same file name only when they are equal.
pub proof fn law_part_file_names_distinct(i: nat, j: nat)
    requires
        part_file_name(i) == part_file_name(j),
    ensures
        i == j,
{
    let p = "part_"@;
    let q = ".mp4"@;
    lemma_middle_equal(p, dec_padded(i, 3), dec_padded(j, 3), q);
    law_dec_padded_injective(i, j, 3);
}

/// How a POSIX shell reads a word: outside quotes, `'` opens a quote and
/// `\` takes the next character as it is; inside quotes everything up to
/// the closing `'` is taken as it is.
pub open spec fn shell_read(s: Seq<char>, quoted: bool) -> Seq<char>
    decreases s.len(),
{
    if s.len() == 0 {
        seq![]
    } else if quoted {
        if s[0] == '\'' {
            shell_read(s.drop_first(), false)
        } else {
            seq![s[0]] + shell_read(s.drop_first(), true)
        }
    } else if s[0] == '\'' {
        shell_read(s.drop_first(), true)
    } else if s[0] == '\\' && s.len() >= 2 {
        seq![s[1]] + shell_read(s.skip(2), false)
    } else {
        seq![s[0]] + shell_read(s.drop_first(), false)
    }
}

proof fn lemma_replace_front(v: Seq<char>, c: char, r: Seq<char>)
    requires
        v.len() > 0,
    ensures
        replace_char_spec(v, c, r) == (if v[0] == c {
            r
        } else {
            seq![v[0]]
        }) + replace_char_spec(v.drop_first(), c, r),
    decreases v.len(),
{
    if v.len() == 1 {
        assert(v.drop_last() =~= Seq::<char>::empty());
        assert(v.drop_first() =~= Seq::<char>::empty());
        assert(replace_char_spec(Seq::<char>::empty(), c, r) =~= Seq::<char>::empty());
    } else {
        lemma_replace_front(v.drop_last(), c, r);
        assert(v.drop_last().drop_first() =~= v.drop_first().drop_last());
        assert(v.drop_first().last() == v.last());
    }
}

proof fn lemma_read_safe(v: Seq<char>)
    requires
        forall|i: int| 0 <= i < v.len() ==> is_shell_safe(#[trigger] v[i]),
    ensures
        shell_read(v, false) == v,
    decreases v.len(),
{
    if v.len() > 0 {
        assert(is_shell_safe(v[0]));
        assert forall|i: int| 0 <= i < v.drop_first().len() implies is_shell_safe(
            #[trigger] v.drop_first()[i],
        ) by {
            assert(v.drop_first()[i] == v[i + 1]);
        }
        lemma_read_safe(v.drop_first());
        assert(seq![v[0]] + v.drop_first() =~= v);
    }
}

proof fn lemma_read_quote_step(tail: Seq<char>)
    ensures
        shell_read("'\\''"@ + tail, true) == seq!['\''] + shell_read(tail, true),
{
    reveal_strlit("'\\''");
    let s = "'\\''"@ + tail;
    let s1 = s.drop_first();
    assert(s1 =~= seq!['\\', '\'', '\''] + tail);
    assert(shell_read(s, true) == shell_read(s1, false));
    let s2 = s1.skip(2);
    assert(s2 =~= seq!['\''] + tail);
    assert(shell_read(s1, false) == seq!['\''] + shell_read(s2, false));
    assert(s2.drop_first() =~= tail);
    assert(shell_read(s2, false) == shell_read(tail, true));
}

proof fn lemma_read_char_step(c: char, tail: Seq<char>)
    requires
        c != '\'',
    ensures
        shell_read(seq![c] + tail, true) == seq![c] + shell_read(tail, true),
{
    let s = seq![c] + tail;
    assert(s.drop_first() =~= tail);
}

proof fn lemma_read_close(rest: Seq<char>)
    ensures
        shell_read("'"@ + rest, true) == shell_read(rest, false),
{
    reveal_strlit("'");
    assert(("'"@ + rest).drop_first() =~= rest);
}

proof fn lemma_read_quoted(v: Seq<char>, rest: Seq<char>)
    ensures
        shell_read(replace_char_spec(v, '\'', "'\\''"@) + ("'"@ + rest), true) == v + shell_read(
            rest,
            false,
        ),
    decreases v.len(),
{
    let r = "'\\''"@;
    if v.len() == 0 {
        assert(replace_char_spec(v, '\'', r) =~= Seq::<char>::empty());
        assert(replace_char_spec(v, '\'', r) + ("'"@ + rest) =~= "'"@ + rest);
        lemma_read_close(rest);
        assert(v + shell_read(rest, false) =~= shell_read(rest, false));
    } else {
        lemma_replace_front(v, '\'', r);
        lemma_read_quoted(v.drop_first(), rest);
        let tail = replace_char_spec(v.drop_first(), '\'', r) + ("'"@ + rest);
        if v[0] == '\'' {
            assert(replace_char_spec(v, '\'', r) + ("'"@ + rest) =~= r + tail);
            lemma_read_quote_step(tail);
        } else {
            assert(replace_char_spec(v, '\'', r) + ("'"@ + rest) =~= seq![v[0]] + tail);
            lemma_read_char_step(v[0], tail);
        }
        assert(v =~= seq![v[0]] + v.drop_first());
    }
}

/// The dry-run rendering of an argument is read back by a POSIX shell as
/// the argument itself: safe words stand as they are, others are quoted.
pub proof fn law_shell_word_reads_back(v: Seq<char>)
    ensures
        shell_read(shell_escape_spec(v), false) == v,
{
    reveal_strlit("'");
    if forall|i: int| 0 <= i < v.len() ==> is_shell_safe(#[trigger] v[i]) {
        lemma_read_safe(v);
    } else {
        let s = "'"@ + replace_char_spec(v, '\'', "'\\''"@) + "'"@;
        lemma_read_quoted(v, Seq::empty());
        assert(s.drop_first() =~= replace_char_spec(v, '\'', "'\\''"@) + ("'"@ + Seq::<char>::empty()));
        assert(v + shell_read(Seq::<char>::empty(), false) =~= v);
    }
}

/// How a POSIX shell splits a command line into words: unquoted spaces
/// separate words, `'` quotes everything up to the next `'`, and an
/// unquoted `\` takes the next character as it is. `cur` is the word being
/// read and `in_word` whether one has begun.
pub open spec fn shell_split(s: Seq<char>, quoted: bool, cur: Seq<char>, in_word: bool) -> Seq<
    Seq<char>,
>
    decreases s.len(),
{
    if s.len() == 0 {
        if in_word {
            seq![cur]
        } else {
            seq![]
        }
    } else if quoted {
        if s[0] == '\'' {
            shell_split(s.drop_first(), false, cur, true)
        } else {
            shell_split(s.drop_first(), true, cur.push(s[0]), true)
        }
    } else if s[0] == ' ' {
        (if in_word {
            seq![cur]
        } else {
            seq![]
        }) + shell_split(s.drop_first(), false, seq![], false)
    } else if s[0] == '\'' {
        shell_split(s.drop_first(), true, cur, true)
    } else if s[0] == '\\' && s.len() >= 2 {
        shell_split(s.skip(2), false, cur.push(s[1]), true)
    } else {
        shell_split(s.drop_first(), false, cur.push(s[0]), true)
    }
}

proof fn lemma_split_safe(v: Seq<char>, rest: Seq<char>, cur: Seq<char>, in_word: bool)
    requires
        forall|i: int| 0 <= i < v.len() ==> is_shell_safe(#[trigger] v[i]),
    ensures
        shell_split(v + rest, false, cur, in_word) == shell_split(
            rest,
            false,
            cur + v,
            in_word || v.len() > 0,
        ),
    decreases v.len(),
{
    if v.len() == 0 {
        assert(v + rest =~= rest);
        assert(cur + v =~= cur);
    } else {
        assert(is_shell_safe(v[0]));
        assert forall|i: int| 0 <= i < v.drop_first().len() implies is_shell_safe(
            #[trigger] v.drop_first()[i],
        ) by {
            assert(v.drop_first()[i] == v[i + 1]);
        }
        lemma_split_safe(v.drop_first(), rest, cur.push(v[0]), true);
        assert((v + rest).drop_first() =~= v.drop_first() + rest);
        assert((v + rest)[0] == v[0]);
        assert(cur.push(v[0]) + v.drop_first() =~= cur + v);
    }
}

proof fn lemma_split_quote_step(tail: Seq<char>, cur: Seq<char>)
    ensures
        shell_split("'\\''"@ + tail, true, cur, true) == shell_split(tail, true, cur.push('\''), true),
{
    reveal_strlit("'\\''");
    let s = "'\\''"@ + tail;
    let s1 = s.drop_first();
    assert(s1 =~= seq!['\\', '\'', '\''] + tail);
    assert(shell_split(s, true, cur, true) == shell_split(s1, false, cur, true));
    let s2 = s1.skip(2);
    assert(s2 =~= seq!['\''] + tail);
    assert(shell_split(s1, false, cur, true) == shell_split(s2, false, cur.push('\''), true));
    assert(s2.drop_first() =~= tail);
}

proof fn lemma_split_quoted(v: Seq<char>, rest: Seq<char>, cur: Seq<char>)
    ensures
        shell_split(replace_char_spec(v, '\'', "'\\''"@) + ("'"@ + rest), true, cur, true)
            == shell_split(rest, false, cur + v, true),
    decreases v.len(),
{
    reveal_strlit("'");
    let r = "'\\''"@;
    if v.len() == 0 {
        assert(replace_char_spec(v, '\'', r) =~= Seq::<char>::empty());
        let s = replace_char_spec(v, '\'', r) + ("'"@ + rest);
        assert(s =~= "'"@ + rest);
        assert(s.drop_first() =~= rest);
        assert(cur + v =~= cur);
    } else {
        lemma_replace_front(v, '\'', r);
        let tail = replace_char_spec(v.drop_first(), '\'', r) + ("'"@ + rest);
        if v[0] == '\'' {
            assert(replace_char_spec(v, '\'', r) + ("'"@ + rest) =~= r + tail);
            lemma_split_quote_step(tail, cur);
            lemma_split_quoted(v.drop_first(), rest, cur.push('\''));
        } else {
            let s = seq![v[0]] + tail;
            assert(replace_char_spec(v, '\'', r) + ("'"@ + rest) =~= s);
            assert(s.drop_first() =~= tail);
            lemma_split_quoted(v.drop_first(), rest, cur.push(v[0]));
        }
        assert(cur.push(v[0]) + v.drop_first() =~= cur + v);
    }
}

proof fn lemma_split_escaped(w: Seq<char>, rest: Seq<char>, cur: Seq<char>, in_word: bool)
    requires
        w.len() > 0,
    ensures
        shell_split(shell_escape_spec(w) + rest, false, cur, in_word) == shell_split(
            rest,
            false,
            cur + w,
            true,
        ),
{
    reveal_strlit("'");
    if forall|i: int| 0 <= i < w.len() ==> is_shell_safe(#[trigger] w[i]) {
        lemma_split_safe(w, rest, cur, in_word);
    } else {
        let q = replace_char_spec(w, '\'', "'\\''"@);
        let s = "'"@ + q + "'"@ + rest;
        assert(shell_escape_spec(w) + rest =~= s);
        assert(s[0] == '\'');
        assert(s.drop_first() =~= q + ("'"@ + rest));
        lemma_split_quoted(w, rest, cur);
    }
}

proof fn lemma_join_front(parts: Seq<Seq<char>>, sep: Seq<char>)
    requires
        parts.len() >= 2,
    ensures
        join_spec(parts, sep) == parts[0] + sep + join_spec(parts.drop_first(), sep),
    decreases parts.len(),
{
    if parts.len() == 2 {
        assert(parts.drop_last().len() == 1);
        assert(parts.drop_first().len() == 1);
        assert(join_spec(parts.drop_first(), sep) == parts[1]);
        assert(join_spec(parts.drop_last(), sep) == parts[0]);
    } else {
        lemma_join_front(parts.drop_last(), sep);
        assert(parts.drop_last().drop_first() =~= parts.drop_first().drop_last());
        assert(parts.drop_first().last() == parts.last());
        assert(join_spec(parts.drop_first(), sep) == join_spec(parts.drop_first().drop_last(), sep)
            + sep + parts.drop_first().last());
    }
}

proof fn lemma_split_joined(words: Seq<Seq<char>>)
    requires
        forall|i: int| 0 <= i < words.len() ==> (#[trigger] words[i]).len() > 0,
    ensures
        shell_split(
            join_spec(words.map_values(|w: Seq<char>| shell_escape_spec(w)), " "@),
            false,
            seq![],
            false,
        ) == words,
    decreases words.len(),
{
    reveal_strlit(" ");
    let escaped = words.map_values(|w: Seq<char>| shell_escape_spec(w));
    if words.len() == 0 {
        assert(join_spec(escaped, " "@) =~= Seq::<char>::empty());
    } else if words.len() == 1 {
        assert(join_spec(escaped, " "@) == escaped[0]);
        lemma_split_escaped(words[0], seq![], seq![], false);
        assert(escaped[0] + Seq::<char>::empty() =~= escaped[0]);
        assert(Seq::<char>::empty() + words[0] =~= words[0]);
        assert(seq![words[0]] =~= words);
    } else {
        lemma_join_front(escaped, " "@);
        let tail = join_spec(escaped.drop_first(), " "@);
        assert(escaped.drop_first() =~= words.drop_first().map_values(
            |w: Seq<char>| shell_escape_spec(w),
        ));
        lemma_split_joined(words.drop_first());
        lemma_split_escaped(words[0], " "@ + tail, seq![], false);
        assert(escaped[0] + " "@ + tail =~= escaped[0] + (" "@ + tail));
        let rest = " "@ + tail;
        assert(rest.drop_first() =~= tail);
        assert(Seq::<char>::empty() + words[0] =~= words[0]);
        assert(seq![words[0]] + words.drop_first() =~= words);
    }
}

/// The command line that a dry run prints is read back by a POSIX shell as
/// the program followed by its arguments, provided none of them is empty
/// (an empty word renders as nothing and is lost).
pub proof fn law_rendered_command_reads_back(program: Seq<char>, args: Seq<Seq<char>>)
    requires
        program.len() > 0,
        forall|i: int| 0 <= i < args.len() ==> (#[trigger] args[i]).len() > 0,
    ensures
        shell_split(render_spec(program, args), false, seq![], false) == seq![program] + args,
{
    let words = seq![program] + args;
    assert forall|i: int| 0 <= i < words.len() implies (#[trigger] words[i]).len() > 0 by {
        if i > 0 {
            assert(words[i] == args[i - 1]);
        }
    }
    assert(seq![shell_escape_spec(program)] + args.map_values(|a: Seq<char>| shell_escape_spec(a))
        =~= words.map_values(|w: Seq<char>| shell_escape_spec(w)));
    lemma_split_joined(words);
}

/// A measure of the work left for a cut: it falls with every step.
pub open spec fn cut_rank(job: JobModel, state: StateModel) -> nat {
    let t = job.trim_attempts.len() + 2;
    let m = job.merge_attempts.len();
    let n = job.ranges.len();
    match state {
        StateModel::Start => ((n + 1) * t + m + 5) as nat,
        StateModel::Preparing { index, .. } => ((n - index) * t) as nat,
        StateModel::Trimming { index, attempt, .. } => ((n - index) * t - 1 - attempt) as nat,
        StateModel::PreparingMerge { .. } => m + 4,
        StateModel::AwaitingTempDir { .. } => m + 3,
        StateModel::Extracting { .. } => m + 2,
        StateModel::WritingList { .. } => m + 1,
        StateModel::Merging { attempt, .. } => (m - attempt) as nat,
        StateModel::Stopped => 0,
    }
}

proof fn lemma_rank_steps(n: int, i: int, t: int, a: int)
    requires
        0 <= i < n,
        0 <= a,
        a + 2 < t,
    ensures
        (n - (i + 1)) * t < (n - i) * t - 1 - a,
        (n - i) * t - 1 - a > 0,
        (n - i) * t - 1 - (a + 1) < (n - i) * t - 1 - a,
        (n - i) * t - 1 < (n - i) * t,
        (n - i) * t <= n * t,
        n * t < (n + 1) * t,
{
    assert((n - (i + 1)) * t == (n - i) * t - t) by (nonlinear_arith);
    assert((n - i) * t >= t) by (nonlinear_arith)
        requires
            n - i >= 1,
            t > 0,
    ;
    assert((n - i) * t <= n * t) by (nonlinear_arith)
        requires
            0 <= i,
            t > 0,
    ;
    assert((n + 1) * t == n * t + t) by (nonlinear_arith);
}

proof fn lemma_start_segment_ends(job: JobModel, index: nat)
    requires
        job.trim_attempts.len() > 0,
    ensures
        ({
            let (next, action) = start_segment(job, index);
            &&& (next is Stopped) <==> (action is Finish || action is Abort)
            &&& next matches StateModel::Preparing { index: i, .. } ==> i == index && index
                < job.ranges.len()
        }),
{
}

/// Cutting an input always ends: every step from a state other than the
/// final one lowers `cut_rank`, and a step reaches the final state exactly
/// when it gives `Finish` or `Abort`. The caller's loop therefore stops
/// after at most `cut_rank(job, Start)` steps.
pub proof fn law_cut_job_ends(
    job: JobModel,
    ffmpeg: Seq<char>,
    state: StateModel,
    event: EventModel,
)
    requires
        state_fits(job, state),
        !(state is Stopped),
    ensures
        ({
            let (next, action) = cut_next(job, ffmpeg, state, event);
            &&& cut_rank(job, next) < cut_rank(job, state)
            &&& (next is Stopped) <==> (action is Finish || action is Abort)
        }),
{
    let n = job.ranges.len() as int;
    let t = (job.trim_attempts.len() + 2) as int;
    match state {
        StateModel::Start => {
            lemma_start_segment_ends(job, 0);
            if n > 0 {
                lemma_rank_steps(n, 0, t, 0);
            }
        },
        StateModel::Preparing { index, .. } => {
            lemma_rank_steps(n, index as int, t, 0);
        },
        StateModel::Trimming { index, attempt, .. } => {
            lemma_rank_steps(n, index as int, t, attempt as int);
            lemma_start_segment_ends(job, index + 1);
        },
        _ => {},
    }
}

/// When the fallback is on, a stream-copy merge that fails is retried once,
/// re-encoded, with a warning.
pub proof fn law_failed_copy_merge_is_reencoded(
    job: JobModel,
    ffmpeg: Seq<char>,
    output: Seq<char>,
    list: Seq<char>,
)
    requires
        job.merge_attempts == merge_attempts_spec(true),
    ensures
        job.merge_attempts[0] == false,
        cut_next(job, ffmpeg, StateModel::Merging { output, list, attempt: 0 }, EventModel::Failed)
            == (StateModel::Merging { output, list, attempt: 1 }, ActionModel::RunChecked {
            spec: (ffmpeg, merge_args_spec(list, output, true, job.caps)),
            output,
            target: CheckTarget::Total,
            warning: Some(merge_warning_spec(job.input)),
        }),
{
}

/// When the fallback is on and re-encoding is not forced, a stream-copy trim
/// that fails is retried once, re-encoded; a trim that already re-encodes,
/// or runs without the fallback, is not retried.
pub proof fn law_failed_copy_trim_is_reencoded(
    job: JobModel,
    ffmpeg: Seq<char>,
    index: nat,
    output: Seq<char>,
    reencode: bool,
    fallback_reencode: bool,
)
    requires
        job.trim_attempts == trim_attempts_spec(false, reencode, fallback_reencode),
        index < job.ranges.len(),
    ensures
        job.trim_attempts[0] == reencode,
        (fallback_reencode && !reencode) ==> cut_next(
            job,
            ffmpeg,
            StateModel::Trimming { index, output, attempt: 0 },
            EventModel::Failed,
        ) == (StateModel::Trimming { index, output, attempt: 1 }, trim_action(
            job,
            ffmpeg,
            index,
            output,
            1,
        )) && job.trim_attempts[1] == true,
        !(fallback_reencode && !reencode) ==> cut_next(
            job,
            ffmpeg,
            StateModel::Trimming { index, output, attempt: 0 },
            EventModel::Failed,
        ) == (StateModel::Stopped, ActionModel::Abort(None)),
{
}

/// The start of a trim's arguments, and where its input and duration stand:
/// `-ss <start>` after the first two words, then `-i <input> -t <duration>`,
/// two words later when a re-encode decodes with an acceleration method.
proof fn lemma_trim_args_shape(
    start: Seq<char>,
    input: Seq<char>,
    duration: Seq<char>,
    output: Seq<char>,
    reencode: bool,
    caps: CapsModel,
)
    requires
        start != "-i"@,
    ensures
        ({
            let a = trim_args_spec(start, input, duration, output, reencode, caps);
            let k = if reencode && caps.2 is Some { 6int } else { 4int };
            &&& a.len() >= k + 4
            &&& a.take(4) == seq!["-hide_banner"@, "-y"@, "-ss"@, start]
            &&& a.subrange(k, k + 4) == seq!["-i"@, input, "-t"@, duration]
            &&& a.last() == output
        }),
{
    reveal_strlit("-hide_banner");
    reveal_strlit("-y");
    reveal_strlit("-ss");
    reveal_strlit("-i");
    assert("-y"@[1] != "-i"@[1]);
    assert("-ss"@.len() != "-i"@.len());
    let base = seq![
        "-hide_banner"@,
        "-y"@,
        "-ss"@,
        start,
        "-i"@,
        input,
        "-t"@,
        duration,
        "-map"@,
        "0:v:0"@,
        "-map"@,
        "0:a:0?"@,
        "-sn"@,
        "-dn"@,
    ] + encode_args_spec(reencode, caps) + seq![output];
    assert(base[0] != "-i"@);
    assert(base[1] != "-i"@);
    assert(base[2] != "-i"@);
    assert(base[3] != "-i"@);
    assert(base[4] == "-i"@);
    lemma_find_first(base, "-i"@);
    assert(find_first(base, "-i"@) == Some(4int));
    let a = trim_args_spec(start, input, duration, output, reencode, caps);
    if reencode && caps.2 is Some {
        let h = caps.2->0;
        assert(a == base.take(4) + seq!["-hwaccel"@, h] + base.skip(4));
        assert(a.take(4) =~= seq!["-hide_banner"@, "-y"@, "-ss"@, start]);
        assert(a.subrange(6, 10) =~= seq!["-i"@, input, "-t"@, duration]);
    } else {
        assert(a == base);
        assert(a.take(4) =~= seq!["-hide_banner"@, "-y"@, "-ss"@, start]);
        assert(a.subrange(4, 8) =~= seq!["-i"@, input, "-t"@, duration]);
    }
}

/// Every trim that the cut runs, in every mode and at every attempt, cuts
/// segment `index` from the job's own range `index`: `-ss` with that
/// range's start, `-i` with the job's input, `-t` with that range's
/// duration, into the segment's output, checked against that segment.
/// (Rendered starts are timestamps, never the word `-i`.)
pub proof fn law_trim_uses_its_own_range(
    job: JobModel,
    ffmpeg: Seq<char>,
    state: StateModel,
    event: EventModel,
)
    requires
        state_fits(job, state),
        forall|i: int| 0 <= i < job.ranges.len() ==> (#[trigger] job.ranges[i]).0 != "-i"@,
    ensures
        ({
            let (next, action) = cut_next(job, ffmpeg, state, event);
            next matches StateModel::Trimming { index, output, attempt } ==> {
                &&& index < job.ranges.len()
                &&& attempt < job.trim_attempts.len()
                &&& action matches ActionModel::RunChecked { spec, output: o, target, .. } && {
                    let a = spec.1;
                    let k = if job.trim_attempts[attempt as int] && job.caps.2 is Some {
                        6int
                    } else {
                        4int
                    };
                    &&& spec.0 == ffmpeg
                    &&& o == output
                    &&& target == CheckTarget::Segment(index as usize)
                    &&& a.len() >= k + 4
                    &&& a.take(4) == seq![
                        "-hide_banner"@,
                        "-y"@,
                        "-ss"@,
                        job.ranges[index as int].0,
                    ]
                    &&& a.subrange(k, k + 4) == seq![
                        "-i"@,
                        job.input,
                        "-t"@,
                        job.ranges[index as int].1,
                    ]
                    &&& a.last() == output
                }
            }
        }),
{
    let (next, action) = cut_next(job, ffmpeg, state, event);
    if let StateModel::Trimming { index, output, attempt } = next {
        match state {
            StateModel::Preparing { .. } => {},
            StateModel::Trimming { .. } => {
                match event {
                    EventModel::Succeeded => {
                        let (i, _) = match state {
                            StateModel::Trimming { index, .. } => (index, 0nat),
                            _ => (0nat, 0nat),
                        };
                        lemma_start_segment_not_trimming(job, i + 1);
                    },
                    _ => {},
                }
            },
            StateModel::Start => {
                lemma_start_segment_not_trimming(job, 0);
            },
            _ => {},
        }
        assert(index < job.ranges.len());
        let r = job.ranges[index as int];
        assert(r.0 != "-i"@);
        lemma_trim_args_shape(
            r.0,
            job.input,
            r.1,
            output,
            job.trim_attempts[attempt as int],
            job.caps,
        );
    }
}

proof fn lemma_start_segment_not_trimming(job: JobModel, index: nat)
    ensures
        !(start_segment(job, index).0 is Trimming),
{
}

/// The maximum height of a compression: the one given with `--max-height`;
/// else none under `--no-resize`; else 1440 for the `high-quality` preset
/// and 1080 for `web`, `discord` and no preset.
pub proof fn law_preset_max_heights(args: CompressArgs)
    ensures
        args.max_height matches Some(h) ==> max_height_spec(args) == Some(h),
        args.max_height is None && args.no_resize ==> max_height_spec(args) is None,
        args.max_height is None && !args.no_resize && args.preset == Some(Preset::HighQuality)
            ==> max_height_spec(args) == Some(1440u32),
        args.max_height is None && !args.no_resize && args.preset == Some(Preset::Discord)
            ==> max_height_spec(args) == Some(1080u32),
        args.max_height is None && !args.no_resize && args.preset == Some(Preset::Web)
            ==> max_height_spec(args) == Some(1080u32),
        args.max_height is None && !args.no_resize && args.preset is None ==> max_height_spec(args)
            == Some(1080u32),
{
}

/// An input whose video is H.264, HEVC or MPEG-4 and that has no audio
/// stream is remuxed, with `-c copy`, unless re-encoding is asked for.
pub proof fn law_video_only_mp4_codecs_are_remuxed(
    args: ToMp4Args,
    probe: StreamSummary,
    input: Seq<char>,
    output: Seq<char>,
)
    requires
        probe.video_codec.deep_view() == Some("h264"@) || probe.video_codec.deep_view() == Some(
            "hevc"@,
        ) || probe.video_codec.deep_view() == Some("mpeg4"@),
        probe.audio_codec is None,
    ensures
        should_copy_spec(args, probe) == !args.reencode,
        copy_args_spec(input, output).subrange(10, 12) == seq!["-c"@, "copy"@],
{
    assert(copy_args_spec(input, output).subrange(10, 12) =~= seq!["-c"@, "copy"@]);
}

/// The GIF arguments: `-ss <from>` before the input when a start is given;
/// `-t <duration>` right after the input exactly when a duration is given,
/// whether or not a start is; else the filter follows the input.
pub proof fn law_gif_duration_follows_input(
    input: Seq<char>,
    from: Option<Seq<char>>,
    duration: Option<Seq<char>>,
    fps: u32,
    width: u32,
    output: Seq<char>,
)
    ensures
        ({
            let a = gif_args_spec(input, from, duration, fps, width, output);
            let k = if from is Some { 4int } else { 2int };
            &&& a.len() >= k + 5
            &&& from matches Some(f) ==> a[2] == "-ss"@ && a[3] == f
            &&& a[k] == "-i"@ && a[k + 1] == input
            &&& duration matches Some(d) ==> a[k + 2] == "-t"@ && a[k + 3] == d
            &&& duration is None ==> a[k + 2] == "-vf"@
            &&& a.last() == output
        }),
{
    let a = gif_args_spec(input, from, duration, fps, width, output);
    let f = join_spec(gif_filters_spec(fps, width), ","@);
    assert(a == seq!["-hide_banner"@, "-y"@] + opt_pair("-ss"@, from) + seq!["-i"@, input] + opt_pair(
        "-t"@,
        duration,
    ) + seq!["-vf"@, f, output]);
}

/// A word is written bare exactly when every character is an ASCII letter
/// or digit or one of `/ . _ - + = :`; any other character (`&`, `;`, `|`,
/// `$`, a space, a quote, ...) puts the whole word in single quotes.
pub proof fn law_bare_words_are_plain(w: Seq<char>)
    ensures
        ({
            let plain = forall|i: int|
                0 <= i < w.len() ==> {
                    let c = #[trigger] w[i];
                    ('a' <= c && c <= 'z') || ('A' <= c && c <= 'Z') || ('0' <= c && c <= '9')
                        || c == '/' || c == '.' || c == '_' || c == '-' || c == '+' || c == '='
                        || c == ':'
                };
            let e = shell_escape_spec(w);
            &&& plain ==> e == w
            &&& !plain ==> e.len() >= 2 && e[0] == '\'' && e.last() == '\''
            &&& w.len() > 0 ==> (e[0] == '\'' <==> !plain)
        }),
{
    reveal_strlit("'");
    let plain = forall|i: int|
        0 <= i < w.len() ==> {
            let c = #[trigger] w[i];
            ('a' <= c && c <= 'z') || ('A' <= c && c <= 'Z') || ('0' <= c && c <= '9') || c == '/'
                || c == '.' || c == '_' || c == '-' || c == '+' || c == '=' || c == ':'
        };
    let safe = forall|i: int| 0 <= i < w.len() ==> is_shell_safe(#[trigger] w[i]);
    assert(plain == safe);
    if !safe {
        let r = replace_char_spec(w, '\'', "'\\''"@);
        let e = "'"@ + r + "'"@;
        assert(e[0] == '\'');
        assert(e.last() == '\'');
    } else if w.len() > 0 {
        assert(is_shell_safe(w[0]));
    }
}

} // verus!
