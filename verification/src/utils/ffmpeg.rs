//! FFmpeg invocations and what is read from `ffprobe`.
use vstd::prelude::*;

use crate::utils::text::{join, join_spec, replace_char, replace_char_spec, str_eq};

verus! {

broadcast use vstd::string::group_string_axioms;

/// One program run: the program and its arguments.
#[derive(Debug, Clone)]
pub struct ProcessSpec {
    program: String,
    args: Vec<String>,
}

impl View for ProcessSpec {
    type V = (Seq<char>, Seq<Seq<char>>);

    closed spec fn view(&self) -> (Seq<char>, Seq<Seq<char>>) {
        (self.program@, self.args.deep_view())
    }
}

/// Whether `c` stands unquoted in a rendered command: ASCII letters and
/// digits and `/._-+=:`.
pub open spec fn is_shell_safe(c: char) -> bool {
    ('a' <= c <= 'z') || ('A' <= c <= 'Z') || ('0' <= c <= '9') || c == '/' || c == '.' || c
        == '_' || c == '-' || c == '+' || c == '=' || c == ':'
}

/// A word as a POSIX shell reads it back: unchanged when every character is
/// safe, else in single quotes with each `'` written as `'\''`.
pub open spec fn shell_escape_spec(v: Seq<char>) -> Seq<char> {
    if forall|i: int| 0 <= i < v.len() ==> is_shell_safe(#[trigger] v[i]) {
        v
    } else {
        "'"@ + replace_char_spec(v, '\'', "'\\''"@) + "'"@
    }
}

/// A command line: the program and each argument escaped, separated by spaces.
pub open spec fn render_spec(program: Seq<char>, args: Seq<Seq<char>>) -> Seq<char> {
    join_spec(
        seq![shell_escape_spec(program)] + args.map_values(|a: Seq<char>| shell_escape_spec(a)),
        " "@,
    )
}

fn is_shell_safe_exec(c: char) -> (r: bool)
    ensures
        r == is_shell_safe(c),
{
    ('a' <= c && c <= 'z') || ('A' <= c && c <= 'Z') || ('0' <= c && c <= '9') || c == '/' || c
        == '.' || c == '_' || c == '-' || c == '+' || c == '=' || c == ':'
}

/// Quotes `value` for a POSIX shell where it needs it.
pub fn shell_escape(value: &str) -> (r: String)
    ensures
        r@ == shell_escape_spec(value@),
{
    let n = value.unicode_len();
    let mut i: usize = 0;
    while i < n
        invariant
            n == value@.len(),
            i <= n,
            forall|j: int| 0 <= j < i ==> is_shell_safe(#[trigger] value@[j]),
        decreases n - i,
    {
        if !is_shell_safe_exec(value.get_char(i)) {
            let mut r = "'".to_string();
            r.append(replace_char(value, '\'', "'\\''").as_str());
            r.append("'");
            return r;
        }
        i = i + 1;
    }
    value.to_string()
}

impl ProcessSpec {
    /// A run of `program` with `args`.
    pub fn new(program: String, args: Vec<String>) -> (spec: Self)
        ensures
            spec@ == (program@, args.deep_view()),
    {
        ProcessSpec { program, args }
    }

    /// The program to run.
    pub fn program(&self) -> (r: &str)
        ensures
            r@ == self@.0,
    {
        self.program.as_str()
    }

    /// The arguments to pass.
    pub fn args(&self) -> (r: &Vec<String>)
        ensures
            r.deep_view() == self@.1,
    {
        &self.args
    }

    /// The command line, each word quoted for a POSIX shell where it needs it.
    pub fn render(&self) -> (r: String)
        ensures
            r@ == render_spec(self@.0, self@.1),
    {
        let mut parts: Vec<String> = Vec::new();
        parts.push(shell_escape(self.program.as_str()));
        let ghost av = self.args.deep_view();
        let mut i: usize = 0;
        while i < self.args.len()
            invariant
                i <= self.args.len(),
                av == self.args.deep_view(),
                parts@.map_values(|p: String| p@) =~= seq![shell_escape_spec(self.program@)]
                    + av.take(i as int).map_values(|a: Seq<char>| shell_escape_spec(a)),
            decreases self.args.len() - i,
        {
            let ghost before = parts@.map_values(|p: String| p@);
            let escaped = shell_escape(self.args[i].as_str());
            parts.push(escaped);
            assert(parts@.map_values(|p: String| p@) =~= before.push(shell_escape_spec(av[i as int])));
            assert(av.take(i + 1) =~= av.take(i as int).push(av[i as int]));
            assert(av.take(i + 1).map_values(|a: Seq<char>| shell_escape_spec(a)) =~= av.take(
                i as int,
            ).map_values(|a: Seq<char>| shell_escape_spec(a)).push(shell_escape_spec(av[i as int])));
            i = i + 1;
        }
        assert(av.take(self.args.len() as int) =~= av);
        join(parts.as_slice(), " ")
    }
}

/// Joins filter descriptions into one FFmpeg filter chain.
pub fn render_filter_chain(parts: &[String]) -> (r: String)
    ensures
        r@ == join_spec(parts@.map_values(|p: String| p@), ","@),
{
    join(parts, ",")
}

/// Video codecs that an MP4 container holds as they are.
pub open spec fn mp4_video_codec(codec: Seq<char>) -> bool {
    codec == "h264"@ || codec == "hevc"@ || codec == "mpeg4"@
}

/// Audio codecs that an MP4 container holds as they are.
pub open spec fn mp4_audio_codec(codec: Seq<char>) -> bool {
    codec == "aac"@ || codec == "mp3"@ || codec == "ac3"@ || codec == "alac"@
}

/// Whether an MP4 container holds the video codec as it is.
pub fn is_mp4_video_compatible(codec: &str) -> (r: bool)
    ensures
        r == mp4_video_codec(codec@),
{
    str_eq(codec, "h264") || str_eq(codec, "hevc") || str_eq(codec, "mpeg4")
}

/// Whether an MP4 container holds the audio codec as it is.
pub fn is_mp4_audio_compatible(codec: &str) -> (r: bool)
    ensures
        r == mp4_audio_codec(codec@),
{
    str_eq(codec, "aac") || str_eq(codec, "mp3") || str_eq(codec, "ac3") || str_eq(codec, "alac")
}

/// A side-data entry of a stream as `ffprobe` reports it.
#[derive(Debug, Clone)]
pub struct ProbeSideData {
    pub rotation: Option<i32>,
}

/// A stream as `ffprobe` reports it.
#[derive(Debug, Clone)]
pub struct ProbeStream {
    pub codec_name: Option<String>,
    pub codec_type: Option<String>,
    pub side_data_list: Option<Vec<ProbeSideData>>,
}

/// What the logic reads from the streams of a media file.
#[derive(Debug, Clone)]
pub struct StreamSummary {
    pub video_codec: Option<String>,
    pub audio_codec: Option<String>,
    pub audio_streams: usize,
    pub rotation_degrees: i32,
}

/// Whether `stream` is of codec type `t`.
pub open spec fn has_type(stream: ProbeStream, t: Seq<char>) -> bool {
    stream.codec_type.deep_view() == Some(t)
}

/// The index of the first stream of type `t` at or after `from`.
pub open spec fn first_of_type(streams: Seq<ProbeStream>, t: Seq<char>, from: int) -> Option<int>
    decreases streams.len() - from,
{
    if from < 0 || from >= streams.len() {
        None
    } else if has_type(streams[from], t) {
        Some(from)
    } else {
        first_of_type(streams, t, from + 1)
    }
}

/// The number of streams of type `t`.
pub open spec fn count_of_type(streams: Seq<ProbeStream>, t: Seq<char>) -> nat
    decreases streams.len(),
{
    if streams.len() == 0 {
        0
    } else {
        count_of_type(streams.drop_last(), t) + (if has_type(streams.last(), t) {
            1nat
        } else {
            0nat
        })
    }
}

/// The first rotation that a side-data list gives.
pub open spec fn first_rotation(items: Seq<ProbeSideData>) -> Option<i32>
    decreases items.len(),
{
    if items.len() == 0 {
        None
    } else if items[0].rotation is Some {
        items[0].rotation
    } else {
        first_rotation(items.drop_first())
    }
}

/// The codec name of the first stream of type `t` (`None` when there is no
/// such stream, or when it has no codec name).
pub open spec fn codec_of_type(streams: Seq<ProbeStream>, t: Seq<char>) -> Option<Seq<char>> {
    match first_of_type(streams, t, 0) {
        Some(i) => streams[i].codec_name.deep_view(),
        None => None,
    }
}

/// The rotation of the first video stream: its first side-data rotation, else 0.
pub open spec fn rotation_spec(streams: Seq<ProbeStream>) -> i32 {
    match first_of_type(streams, "video"@, 0) {
        Some(i) => match streams[i].side_data_list {
            Some(items) => match first_rotation(items@) {
                Some(r) => r,
                None => 0,
            },
            None => 0,
        },
        None => 0,
    }
}

fn stream_has_type(stream: &ProbeStream, t: &str) -> (r: bool)
    ensures
        r == has_type(*stream, t@),
{
    match &stream.codec_type {
        Some(ct) => str_eq(ct.as_str(), t),
        None => false,
    }
}

fn find_stream_of_type(streams: &[ProbeStream], t: &str) -> (r: Option<usize>)
    ensures
        r matches Some(i) ==> first_of_type(streams@, t@, 0) == Some(i as int) && i < streams.len(),
        r is None ==> first_of_type(streams@, t@, 0) is None,
{
    let mut i: usize = 0;
    while i < streams.len()
        invariant
            i <= streams.len(),
            first_of_type(streams@, t@, 0) == first_of_type(streams@, t@, i as int),
        decreases streams.len() - i,
    {
        if stream_has_type(&streams[i], t) {
            return Some(i);
        }
        i = i + 1;
    }
    None
}

fn count_streams_of_type(streams: &[ProbeStream], t: &str) -> (r: usize)
    ensures
        r == count_of_type(streams@, t@),
{
    let mut count: usize = 0;
    let mut i: usize = 0;
    while i < streams.len()
        invariant
            i <= streams.len(),
            count == count_of_type(streams@.take(i as int), t@),
            count <= i,
        decreases streams.len() - i,
    {
        assert(streams@.take(i + 1).drop_last() =~= streams@.take(i as int));
        if stream_has_type(&streams[i], t) {
            count = count + 1;
        }
        i = i + 1;
    }
    assert(streams@.take(streams.len() as int) =~= streams@);
    count
}

fn find_rotation(items: &Vec<ProbeSideData>) -> (r: Option<i32>)
    ensures
        r == first_rotation(items@),
{
    let mut i: usize = 0;
    assert(items@.skip(0) =~= items@);
    while i < items.len()
        invariant
            i <= items.len(),
            first_rotation(items@) == first_rotation(items@.skip(i as int)),
        decreases items.len() - i,
    {
        assert(items@.skip(i as int)[0] == items@[i as int]);
        assert(items@.skip(i as int).drop_first() =~= items@.skip(i + 1));
        if let Some(rotation) = items[i].rotation {
            return Some(rotation);
        }
        i = i + 1;
    }
    assert(items@.skip(i as int) =~= Seq::<ProbeSideData>::empty());
    None
}

fn clone_opt_string(o: &Option<String>) -> (r: Option<String>)
    ensures
        r.deep_view() == o.deep_view(),
{
    match o {
        Some(s) => Some(s.clone()),
        None => None,
    }
}

/// What the logic reads from the streams that `ffprobe` reports: the codecs
/// of the first video and the first audio stream, the number of audio
/// streams and the rotation of the first video stream.
pub fn summarize_streams(streams: &[ProbeStream]) -> (s: StreamSummary)
    ensures
        s.video_codec.deep_view() == codec_of_type(streams@, "video"@),
        s.audio_codec.deep_view() == codec_of_type(streams@, "audio"@),
        s.audio_streams == count_of_type(streams@, "audio"@),
        s.rotation_degrees == rotation_spec(streams@),
{
    let video = find_stream_of_type(streams, "video");
    let audio = find_stream_of_type(streams, "audio");
    let video_codec = match video {
        Some(i) => clone_opt_string(&streams[i].codec_name),
        None => None,
    };
    let audio_codec = match audio {
        Some(i) => clone_opt_string(&streams[i].codec_name),
        None => None,
    };
    let rotation_degrees = match video {
        Some(i) => match &streams[i].side_data_list {
            Some(items) => match find_rotation(items) {
                Some(r) => r,
                None => 0,
            },
            None => 0,
        },
        None => 0,
    };
    StreamSummary {
        video_codec,
        audio_codec,
        audio_streams: count_streams_of_type(streams, "audio"),
        rotation_degrees,
    }
}

/// Whether the streams can be copied into MP4 as they are: the video codec
/// is known and MP4-compatible, and the audio codec, if any, is too.
pub open spec fn can_stream_copy_spec(video: Option<Seq<char>>, audio: Option<Seq<char>>) -> bool {
    (video matches Some(v) && mp4_video_codec(v)) && match audio {
        Some(a) => mp4_audio_codec(a),
        None => true,
    }
}

/// Whether the streams can be copied into MP4 as they are.
pub fn can_stream_copy_to_mp4(probe: &StreamSummary) -> (r: bool)
    ensures
        r == can_stream_copy_spec(probe.video_codec.deep_view(), probe.audio_codec.deep_view()),
{
    let video_ok = match &probe.video_codec {
        Some(v) => is_mp4_video_compatible(v.as_str()),
        None => false,
    };
    let audio_ok = match &probe.audio_codec {
        Some(a) => is_mp4_audio_compatible(a.as_str()),
        None => true,
    };
    video_ok && audio_ok
}

} // verus!
