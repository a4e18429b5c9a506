use ffx::cli::{Cli, Commands, OutputOptions, ThumbArgs};
use ffx::error::FfxError;
use ffx::run;
use ffx::utils::ffmpeg::{
    ProbeSideData, ProbeStream, ProcessSpec, can_stream_copy_to_mp4, is_mp4_audio_compatible,
    is_mp4_video_compatible, render_filter_chain, shell_escape, summarize_streams,
};
use ffx::utils::file::{build_output_path, build_segment_output_path, file_stem, validate_output_options};
use ffx::utils::log::Logger;
use ffx::utils::runner::{AppContext, collect_failures};
use ffx::utils::text::{lines, trim, words, join, replace_char, split_char, split_once_char, trim_end_char, u64_to_dec, u64_to_dec_padded, parse_u32, ParseIntFailure};

fn opts(output: Option<&str>, dir: Option<&str>) -> OutputOptions {
    OutputOptions { output: output.map(|s| s.to_string()), output_dir: dir.map(|s| s.to_string()) }
}

#[test]
fn output_option_validation() {
    let one = vec!["a.mov".to_string()];
    let two = vec!["a.mov".to_string(), "b.mov".to_string()];
    assert_eq!(validate_output_options(&two, &opts(Some("x.mp4"), Some("d"))), Err(FfxError::OutputAndOutputDir));
    assert_eq!(validate_output_options(&two, &opts(Some("x.mp4"), None)), Err(FfxError::OutputWithManyInputs));
    assert_eq!(validate_output_options(&one, &opts(Some("x.mp4"), None)), Ok(()));
    assert_eq!(validate_output_options(&two, &opts(None, Some("d"))), Ok(()));
}

#[test]
fn output_paths() {
    assert_eq!(build_output_path("input.mov", &opts(None, None), "_compressed", "mp4").unwrap(), "input_compressed.mp4");
    assert_eq!(build_output_path("dir/clip.mkv", &opts(None, None), "", "mp4").unwrap(), "dir/clip.mp4");
    assert_eq!(build_output_path("dir/clip.mkv", &opts(None, Some("out")), "_cut", "mp4").unwrap(), "out/clip_cut.mp4");
    assert_eq!(build_output_path("dir/clip.mkv", &opts(Some("final.mp4"), None), "_cut", "mp4").unwrap(), "final.mp4");
    assert_eq!(build_segment_output_path("in.mp4", &opts(None, None), 0, "mp4").unwrap(), "in.part01.mp4");
    assert_eq!(build_segment_output_path("in.mp4", &opts(None, Some("o")), 11, "mp4").unwrap(), "o/in.part12.mp4");
    assert_eq!(build_segment_output_path("in.mp4", &opts(Some("x.mp4"), None), 0, "mp4").unwrap(), "x.mp4");
    assert_eq!(build_segment_output_path("in.mp4", &opts(Some("x.mp4"), None), 1, "mp4"), Err(FfxError::OutputWithManySegments));
    assert_eq!(file_stem("archive.tar.gz"), "archive.tar");
    assert_eq!(file_stem(".."), "output");
}

#[test]
fn shell_rendering() {
    assert_eq!(shell_escape("plain-file_1.mp4"), "plain-file_1.mp4");
    assert_eq!(shell_escape("my clip.mp4"), "'my clip.mp4'");
    assert_eq!(shell_escape("it's"), "'it'\\''s'");
    assert_eq!(shell_escape(""), "");
    let spec = ProcessSpec::new("ffmpeg".into(), vec!["-i".into(), "a b.mov".into()]);
    assert_eq!(spec.render(), "ffmpeg -i 'a b.mov'");
    assert_eq!(render_filter_chain(&["a".to_string(), "b".to_string()]), "a,b");
    assert_eq!(render_filter_chain(&[]), "");
}

#[test]
fn mp4_compatibility() {
    assert!(is_mp4_video_compatible("hevc"));
    assert!(!is_mp4_video_compatible("vp9"));
    assert!(is_mp4_audio_compatible("alac"));
    assert!(!is_mp4_audio_compatible("opus"));
}

fn stream(kind: &str, codec: Option<&str>, rotations: Option<Vec<Option<i32>>>) -> ProbeStream {
    ProbeStream {
        codec_name: codec.map(|c| c.to_string()),
        codec_type: Some(kind.to_string()),
        side_data_list: rotations.map(|r| r.into_iter().map(|rotation| ProbeSideData { rotation }).collect()),
    }
}

#[test]
fn stream_summary() {
    let streams = vec![
        stream("audio", Some("aac"), None),
        stream("video", Some("h264"), Some(vec![None, Some(-90), Some(90)])),
        stream("audio", Some("opus"), None),
        stream("video", Some("hevc"), None),
    ];
    let s = summarize_streams(&streams);
    assert_eq!(s.video_codec.as_deref(), Some("h264"));
    assert_eq!(s.audio_codec.as_deref(), Some("aac"));
    assert_eq!(s.audio_streams, 2);
    assert_eq!(s.rotation_degrees, -90);
    assert!(can_stream_copy_to_mp4(&s));
    let s = summarize_streams(&[stream("video", None, None)]);
    assert_eq!(s.video_codec, None);
    assert_eq!(s.rotation_degrees, 0);
    assert!(!can_stream_copy_to_mp4(&s));
}

#[test]
fn context_and_failures() {
    assert_eq!(
        AppContext::new(false, 0, "ffmpeg".into(), "ffprobe".into(), Logger::new(true)).unwrap_err(),
        FfxError::NoJobs
    );
    let c = AppContext::new(true, 4, "/usr/bin/ffmpeg".into(), "ffprobe".into(), Logger::new(true)).unwrap();
    assert!(c.logger.verbose());
    assert_eq!(c.ffmpeg(vec!["-version".into()]).render(), "/usr/bin/ffmpeg -version");
    assert_eq!(collect_failures(&[]), Ok(()));
    let err = collect_failures(&["a: bad".to_string(), "b: worse".to_string()]).unwrap_err();
    assert_eq!(err.message(), "a: bad\nb: worse");
}

#[test]
fn error_messages() {
    assert_eq!(FfxError::OutputAndOutputDir.message(), "use either --output or --output-dir, not both");
    assert_eq!(FfxError::InvalidSegment("x".into()).message(), "invalid segment 'x'; expected START-END");
    assert_eq!(FfxError::NoJobs.message(), "jobs must be at least 1");
}

#[test]
fn run_prepares_context() {
    let cli = Cli {
        dry_run: true,
        verbose: false,
        jobs: 2,
        ffmpeg_bin: "ffmpeg".into(),
        ffprobe_bin: "ffprobe".into(),
        no_hwaccel: false,
        command: Commands::Thumb(ThumbArgs { inputs: vec!["v.mp4".into()], output: opts(None, None), at: None, width: 1280 }),
    };
    let encoders = " V..... h264_videotoolbox    VideoToolbox H.264 Encoder\n V..... libx264              libx264 H.264\n";
    let hwaccels = "Hardware acceleration methods:\nvideotoolbox\n";
    let (context, caps, command) = run(cli.clone(), Some(encoders), Some(hwaccels)).expect("run");
    assert!(context.dry_run);
    assert_eq!(context.jobs, 2);
    assert_eq!(caps.encoder_name, "h264_videotoolbox");
    assert_eq!(caps.hwaccel.as_deref(), Some("videotoolbox"));
    assert!(matches!(command, Commands::Thumb(_)));
    let (_, caps, _) = run(cli.clone(), None, None).expect("run");
    assert_eq!(caps.encoder_name, "libx264");
    let mut software = cli.clone();
    software.no_hwaccel = true;
    let (_, caps, _) = run(software, Some(encoders), Some(hwaccels)).expect("run");
    assert_eq!(caps.encoder_name, "libx264");
    assert_eq!(caps.hwaccel, None);
    let mut bad = cli;
    bad.jobs = 0;
    assert_eq!(run(bad, None, None).unwrap_err(), FfxError::NoJobs);
}

#[test]
fn text_helpers() {
    assert_eq!(u64_to_dec(0), "0");
    assert_eq!(u64_to_dec(18446744073709551615), "18446744073709551615");
    assert_eq!(u64_to_dec_padded(7, 3), "007");
    assert_eq!(u64_to_dec_padded(1234, 2), "1234");
    assert_eq!(join(&["a".to_string(), "b".to_string(), "c".to_string()], ", "), "a, b, c");
    assert_eq!(replace_char("a'b'", '\'', "!"), "a!b!");
    assert_eq!(split_char("a:b::c", ':'), vec!["a", "b", "", "c"]);
    assert_eq!(split_once_char("a-b-c", '-'), Some(("a".to_string(), "b-c".to_string())));
    assert_eq!(split_once_char("abc", '-'), None);
    assert_eq!(trim_end_char("128kk", 'k'), "128");
    assert_eq!(parse_u32("+007"), Ok(7));
    assert_eq!(parse_u32("+"), Err(ParseIntFailure::InvalidDigit));
    assert_eq!(parse_u32(""), Err(ParseIntFailure::Empty));
    assert_eq!(parse_u32("4294967296"), Err(ParseIntFailure::TooLarge));
}

#[test]
fn text_functions_agree_with_std() {
    let samples = [
        "", "\n", "a", "a\n", "a\r\n", "foo\r\nbar\n\nbaz\r", "\r\n\r\n", " x  y\t\tz ",
        "\u{a0}nbsp\u{3000}ideo\u{2028}", "\u{85}next", "  ", "V..... h264 Encoder\r\n", "a\rb\n",
    ];
    for s in samples {
        let std_lines: Vec<String> = s.lines().map(|l| l.to_string()).collect();
        assert_eq!(lines(s), std_lines, "lines of {s:?}");
        let std_words: Vec<String> = s.split_whitespace().map(|w| w.to_string()).collect();
        assert_eq!(words(s), std_words, "words of {s:?}");
        assert_eq!(trim(s), s.trim(), "trim of {s:?}");
    }
    for s in ["0", "+0", "00012", "4294967295", "4294967296", "-0", "+", "1_000", "٣"] {
        assert_eq!(parse_u32(s).ok(), s.parse::<u32>().ok(), "parse of {s:?}");
        assert_eq!(trim_end_char(s, '0'), s.trim_end_matches('0'));
    }
    for s in ["", "x", "+", "-1", "1.5", "99999999999", "+99999999999x", "٣"] {
        let reason = parse_u32(s).expect_err("refused");
        let std_reason = s.parse::<u32>().expect_err("refused").to_string();
        assert_eq!(reason.message(), std_reason, "reason for {s:?}");
    }
    for n in [0u64, 7, 10, 99, 100, 12345, u64::MAX] {
        assert_eq!(u64_to_dec(n), n.to_string());
        assert_eq!(u64_to_dec_padded(n, 3), format!("{n:03}"));
    }
}
