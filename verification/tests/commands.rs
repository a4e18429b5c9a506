use ffx::cli::{
    AudioArgs, AudioFormat, CompressArgs, CutArgs, GifArgs, OutputOptions, Preset, ThumbArgs,
    ToMp4Args,
};
use ffx::commands::compress::{CompressionProfile, build_plan as compress_plan, parse_kbps};
use ffx::commands::cut::{
    CutMode, build_extract_specs, check_output_audio, concat_list, cut_mode, merge_attempts,
    merge_command, range_ends, split_segment, timestamp_fields, trim_attempts, trim_command,
};
use ffx::commands::{audio, gif, thumb, to_mp4};
use ffx::error::FfxError;
use ffx::utils::ffmpeg::StreamSummary;
use ffx::utils::hwaccel::{HwAccelCapabilities, VideoEncoderKind};
use ffx::utils::text::ParseIntFailure;
use ffx::utils::log::Logger;
use ffx::utils::runner::AppContext;

fn context() -> AppContext {
    AppContext::new(false, 1, "ffmpeg".into(), "ffprobe".into(), Logger::new(false)).expect("context")
}

fn software() -> HwAccelCapabilities {
    HwAccelCapabilities::software()
}

fn videotoolbox() -> HwAccelCapabilities {
    HwAccelCapabilities {
        encoder: VideoEncoderKind::VideoToolbox,
        encoder_name: "h264_videotoolbox".into(),
        hwaccel: Some("videotoolbox".into()),
    }
}

fn no_output() -> OutputOptions {
    OutputOptions { output: None, output_dir: None }
}

fn compress_args() -> CompressArgs {
    CompressArgs {
        inputs: vec!["input.mov".into()],
        output: OutputOptions {
            output: None,
            output_dir: None,
        },
        crf: 23,
        speed: "medium".into(),
        no_resize: false,
        max_height: None,
        preset: Some(Preset::Web),
        target_size_mb: None,
        audio_bitrate: "128k".into(),
    }
}

#[test]
fn compress_plan_contains_h264_and_faststart() {
    let context = AppContext::new(
        false,
        1,
        "ffmpeg".into(),
        "ffprobe".into(),
        Logger::new(false),
    )
    .expect("context");
    let args = CompressArgs {
        inputs: vec!["input.mov".into()],
        output: OutputOptions {
            output: None,
            output_dir: None,
        },
        crf: 23,
        speed: "medium".into(),
        no_resize: false,
        max_height: None,
        preset: Some(Preset::Web),
        target_size_mb: None,
        audio_bitrate: "128k".into(),
    };

    let plan = compress_plan(&context, &args, "input.mov", None, &software()).expect("plan");
    let rendered = plan[0].render();
    assert!(rendered.contains("libx264"));
    assert!(rendered.contains("+faststart"));
    assert!(rendered.contains("input_compressed.mp4"));
}

#[test]
fn gif_plan_uses_palette_pipeline() {
    let context = AppContext::new(
        false,
        1,
        "ffmpeg".into(),
        "ffprobe".into(),
        Logger::new(false),
    )
    .expect("context");
    let args = GifArgs {
        inputs: vec!["clip.mp4".into()],
        output: OutputOptions {
            output: None,
            output_dir: None,
        },
        fps: 12,
        width: 480,
        from: Some("00:00:03".into()),
        duration: Some("2.5".into()),
    };

    let plan = gif::build_plan(&context, &args, "clip.mp4").expect("plan");
    let rendered = plan[0].render();
    assert!(rendered.contains("palettegen"));
    assert!(rendered.contains("paletteuse"));
    assert!(rendered.contains("clip.gif"));
}

#[test]
fn compress_default_command_caps_height_at_1080() {
    let plan = compress_plan(&context(), &compress_args(), "input.mov", None, &software()).expect("plan");
    assert_eq!(plan.len(), 1);
    assert_eq!(plan[0].program(), "ffmpeg");
    let expected = vec![
        "-hide_banner", "-y", "-i", "input.mov", "-c:v", "libx264", "-preset", "medium", "-crf",
        "23", "-vf",
        "scale='if(gt(ih,1080),trunc(iw*1080/ih/2)*2,iw)':'if(gt(ih,1080),1080,ih)'",
        "-map", "0:v:0", "-map", "0:a:0?", "-sn", "-dn", "-c:a", "aac", "-b:a", "128k",
        "-movflags", "+faststart", "input_compressed.mp4",
    ];
    assert_eq!(plan[0].args(), &expected);
}

#[test]
fn compress_with_hardware_encoder() {
    let plan = compress_plan(&context(), &compress_args(), "input.mov", None, &videotoolbox()).expect("plan");
    let expected = vec![
        "-hide_banner", "-y", "-hwaccel", "videotoolbox", "-i", "input.mov", "-c:v",
        "h264_videotoolbox", "-q:v", "65", "-vf",
        "scale='if(gt(ih,1080),trunc(iw*1080/ih/2)*2,iw)':'if(gt(ih,1080),1080,ih)'",
        "-map", "0:v:0", "-map", "0:a:0?", "-sn", "-dn", "-c:a", "aac", "-b:a", "128k",
        "-movflags", "+faststart", "input_compressed.mp4",
    ];
    assert_eq!(plan[0].args(), &expected);
    let mut args = compress_args();
    args.no_resize = true;
    let plan = compress_plan(&context(), &args, "input.mov", Some("1500k".into()), &videotoolbox()).expect("plan");
    let expected = vec![
        "-hide_banner", "-y", "-hwaccel", "videotoolbox", "-i", "input.mov", "-c:v",
        "h264_videotoolbox", "-b:v", "1500k", "-maxrate", "1500k", "-bufsize", "3000k",
        "-allow_sw", "1", "-map", "0:v:0", "-map", "0:a:0?", "-sn", "-dn", "-c:a", "aac",
        "-b:a", "128k", "-movflags", "+faststart", "input_compressed.mp4",
    ];
    assert_eq!(plan[0].args(), &expected);
}

#[test]
fn compress_target_size_uses_bitrate_mode() {
    let mut args = compress_args();
    args.no_resize = true;
    args.output.output_dir = Some("exports".into());
    let plan = compress_plan(&context(), &args, "clips/demo.mov", Some("1500k".into()), &software()).expect("plan");
    let expected = vec![
        "-hide_banner", "-y", "-i", "clips/demo.mov", "-c:v", "libx264", "-b:v", "1500k",
        "-maxrate", "1500k", "-bufsize", "3000k", "-map", "0:v:0", "-map", "0:a:0?", "-sn", "-dn",
        "-c:a", "aac", "-b:a", "128k", "-movflags", "+faststart", "exports/demo_compressed.mp4",
    ];
    assert_eq!(plan[0].args(), &expected);
    let err = compress_plan(&context(), &args, "demo.mov", Some("fast".into()), &software()).unwrap_err();
    assert_eq!(err, FfxError::InvalidVideoBitrate("fast".into(), ParseIntFailure::InvalidDigit));
    assert_eq!(err.message(), "invalid digit found in string");
}

#[test]
fn compression_profile_follows_preset_and_options() {
    let mut args = compress_args();
    args.preset = Some(Preset::HighQuality);
    args.crf = 30;
    let profile = CompressionProfile::from_args(&args);
    assert_eq!(profile.max_height, Some(1440));
    assert_eq!(profile.crf, 30);
    assert_eq!(profile.speed, "medium");
    args.no_resize = true;
    assert_eq!(CompressionProfile::from_args(&args).max_height, None);
    args.max_height = Some(720);
    let profile = CompressionProfile::from_args(&args);
    assert_eq!(profile.max_height, Some(720));
    assert_eq!(
        profile.video_filter().as_deref(),
        Some("scale='if(gt(ih,720),trunc(iw*720/ih/2)*2,iw)':'if(gt(ih,720),720,ih)'")
    );
    args.preset = None;
    args.max_height = None;
    args.no_resize = false;
    assert_eq!(CompressionProfile::from_args(&args).max_height, Some(1080));
}

#[test]
fn video_bitrate_from_total() {
    let profile = CompressionProfile::from_args(&compress_args());
    assert_eq!(profile.video_bitrate_for_total(2000), Ok("1872k".to_string()));
    assert_eq!(profile.video_bitrate_for_total(128), Err(FfxError::TargetSizeTooSmall));
    let mut args = compress_args();
    args.audio_bitrate = "loud".into();
    let profile = CompressionProfile::from_args(&args);
    let err = profile.video_bitrate_for_total(2000).unwrap_err();
    assert_eq!(err, FfxError::InvalidAudioBitrate("loud".into(), ParseIntFailure::InvalidDigit));
    assert_eq!(err.message(), "invalid audio bitrate 'loud': invalid digit found in string");
}

#[test]
fn kbps_parsing() {
    assert_eq!(parse_kbps("128k"), Ok(128));
    assert_eq!(parse_kbps("192"), Ok(192));
    assert_eq!(parse_kbps("+64kk"), Ok(64));
    assert_eq!(parse_kbps("4294967295k"), Ok(4294967295));
    assert_eq!(parse_kbps("4294967296k"), Err(ParseIntFailure::TooLarge));
    assert_eq!(parse_kbps("k"), Err(ParseIntFailure::Empty));
    assert_eq!(parse_kbps("1.5k"), Err(ParseIntFailure::InvalidDigit));
    assert_eq!(parse_kbps("-1"), Err(ParseIntFailure::InvalidDigit));
    assert_eq!(parse_kbps(" 1"), Err(ParseIntFailure::InvalidDigit));
}

#[test]
fn bitrate_renders_and_reads_back() {
    let profile = CompressionProfile::from_args(&compress_args());
    let video = profile.video_bitrate_for_total(4_000_000_128).expect("bitrate");
    assert_eq!(video, "4000000000k");
    assert_eq!(parse_kbps(&video), Ok(4_000_000_000));
}

#[test]
fn audio_plan_extracts_track() {
    let args = AudioArgs {
        inputs: vec!["lecture.mp4".into()],
        output: no_output(),
        format: AudioFormat::M4a,
        bitrate: "256k".into(),
    };
    let plan = audio::build_plan(&context(), &args, "lecture.mp4").expect("plan");
    assert_eq!(
        plan[0].args(),
        &vec!["-hide_banner", "-y", "-i", "lecture.mp4", "-vn", "-c:a", "aac", "-b:a", "256k", "lecture.m4a"]
    );
    assert_eq!(audio::output_extension(AudioFormat::Mp3), "mp3");
    assert_eq!(audio::audio_codec(AudioFormat::Mp3), "libmp3lame");
}

#[test]
fn thumb_plan_scales_and_seeks() {
    let args = ThumbArgs {
        inputs: vec!["video.mp4".into()],
        output: OutputOptions { output: Some("cover.jpg".into()), output_dir: None },
        at: Some("00:00:05".into()),
        width: 1920,
    };
    let plan = thumb::build_plan(&context(), &args, "video.mp4").expect("plan");
    assert_eq!(
        plan[0].args(),
        &vec![
            "-hide_banner", "-y", "-ss", "00:00:05", "-i", "video.mp4", "-vf",
            "thumbnail=120,scale='min(iw,1920)':-1", "-update", "1", "-frames:v", "1", "cover.jpg"
        ]
    );
}

#[test]
fn gif_command_matches_readme() {
    let args = GifArgs {
        inputs: vec!["clip.mp4".into()],
        output: no_output(),
        fps: 15,
        width: 640,
        from: Some("12".into()),
        duration: Some("2.5".into()),
    };
    let plan = gif::build_plan(&context(), &args, "clip.mp4").expect("plan");
    assert_eq!(
        plan[0].render(),
        "ffmpeg -hide_banner -y -ss 12 -i clip.mp4 -t 2.5 -vf 'fps=15,scale=640:-1:flags=lanczos,split[s0][s1],[s0]palettegen=stats_mode=full[p],[s1][p]paletteuse=dither=sierra2_4a' clip.gif"
    );
}

fn summary(video: Option<&str>, audio: Option<&str>) -> StreamSummary {
    StreamSummary {
        video_codec: video.map(|v| v.to_string()),
        audio_codec: audio.map(|a| a.to_string()),
        audio_streams: usize::from(audio.is_some()),
        rotation_degrees: 0,
    }
}

#[test]
fn to_mp4_remuxes_compatible_streams() {
    let mut args = ToMp4Args {
        inputs: vec!["clip.mkv".into()],
        output: no_output(),
        reencode: false,
        preset: None,
    };
    let plan = to_mp4::build_plan(&context(), &args, "clip.mkv", &summary(Some("h264"), Some("aac")), &software()).expect("plan");
    assert!(plan[0].args().contains(&"copy".to_string()));
    assert_eq!(plan[0].args().last().map(|s| s.as_str()), Some("clip.mp4"));
    let plan = to_mp4::build_plan(&context(), &args, "clip.mkv", &summary(Some("vp9"), None), &software()).expect("plan");
    assert!(plan[0].args().contains(&"libx264".to_string()));
    args.reencode = true;
    args.preset = Some(Preset::HighQuality);
    let plan = to_mp4::build_plan(&context(), &args, "clip.mkv", &summary(Some("h264"), None), &software()).expect("plan");
    let a = plan[0].args();
    let crf = a.iter().position(|x| x == "-crf").expect("crf");
    assert_eq!(a[crf - 1], "libx264");
    assert_eq!(a[crf + 1], "18");
    assert_eq!(a[crf + 2], "-preset");
    assert_eq!(a[crf + 3], "slow");
    let plan = to_mp4::build_plan(&context(), &args, "clip.mkv", &summary(Some("h264"), None), &videotoolbox()).expect("plan");
    assert_eq!(
        plan[0].args(),
        &vec![
            "-hide_banner", "-y", "-hwaccel", "videotoolbox", "-i", "clip.mkv", "-map", "0:v:0",
            "-map", "0:a:0?", "-sn", "-dn", "-c:v", "h264_videotoolbox", "-q:v", "60", "-c:a",
            "aac", "-b:a", "192k", "-movflags", "+faststart", "clip.mp4"
        ]
    );
    args.reencode = false;
    let plan = to_mp4::build_plan(&context(), &args, "clip.mkv", &summary(Some("h264"), Some("aac")), &videotoolbox()).expect("plan");
    assert!(!plan[0].args().contains(&"-hwaccel".to_string()));
}

#[test]
fn cut_modes_and_attempts() {
    assert_eq!(cut_mode(true, 2), CutMode::Split { precise: true });
    assert_eq!(cut_mode(true, 1), CutMode::Split { precise: false });
    assert_eq!(cut_mode(false, 1), CutMode::Single);
    assert_eq!(cut_mode(false, 3), CutMode::Merge);
    assert_eq!(trim_attempts(true, false, true), vec![true]);
    assert_eq!(trim_attempts(false, false, true), vec![false, true]);
    assert_eq!(trim_attempts(false, true, true), vec![true]);
    assert_eq!(trim_attempts(false, false, false), vec![false]);
    assert_eq!(merge_attempts(true), vec![false, true]);
    assert_eq!(merge_attempts(false), vec![false]);
}

#[test]
fn cut_commands() {
    let trim = trim_command(&context(), "in.mp4", "00:00:10", "00:00:10", "out.mp4", false, &videotoolbox());
    assert_eq!(
        trim.args(),
        &vec![
            "-hide_banner", "-y", "-ss", "00:00:10", "-i", "in.mp4", "-t", "00:00:10", "-map",
            "0:v:0", "-map", "0:a:0?", "-sn", "-dn", "-c:v", "copy", "-c:a", "aac", "-b:a", "192k",
            "-af", "aresample=async=1:first_pts=0", "-reset_timestamps", "1", "-movflags",
            "+faststart", "out.mp4"
        ]
    );
    let trim = trim_command(&context(), "in.mp4", "00:00:10", "00:00:10", "out.mp4", true, &videotoolbox());
    assert_eq!(
        trim.render(),
        "ffmpeg -hide_banner -y -ss 00:00:10 -hwaccel videotoolbox -i in.mp4 -t 00:00:10 -map 0:v:0 -map '0:a:0?' -sn -dn -c:v h264_videotoolbox -q:v 62 -c:a aac -b:a 192k -movflags +faststart out.mp4"
    );
    let merge = merge_command(&context(), "/tmp/x/concat.txt", "out.mp4", true, &software());
    assert_eq!(
        merge.render(),
        "ffmpeg -hide_banner -y -f concat -safe 0 -i /tmp/x/concat.txt -map 0:v:0 -map '0:a:0?' -sn -dn -c:v libx264 -crf 20 -preset medium -c:a aac -b:a 192k -movflags +faststart out.mp4"
    );
    let merge = merge_command(&context(), "/tmp/x/concat.txt", "out.mp4", false, &videotoolbox());
    assert_eq!(
        merge.render(),
        "ffmpeg -hide_banner -y -f concat -safe 0 -i /tmp/x/concat.txt -map 0:v:0 -map '0:a:0?' -sn -dn -c copy -movflags +faststart out.mp4"
    );
    let segments = vec![
        ("00:00:10".to_string(), "00:00:10".to_string()),
        ("00:01:00".to_string(), "00:00:30".to_string()),
    ];
    let (files, specs) = build_extract_specs(&context(), "in.mp4", &segments, "/tmp/cut", true, &software());
    assert_eq!(files, vec!["/tmp/cut/part_000.mp4", "/tmp/cut/part_001.mp4"]);
    assert_eq!(specs.len(), 2);
    assert_eq!(specs[1].args()[3], "00:01:00");
    assert_eq!(specs[1].args().last().map(|s| s.as_str()), Some("/tmp/cut/part_001.mp4"));
    let (path, content) = concat_list("/tmp/cut", &files);
    assert_eq!(path, "/tmp/cut/concat.txt");
    assert_eq!(content, "file '/tmp/cut/part_000.mp4'\nfile '/tmp/cut/part_001.mp4'\n");
    let (_, quoted) = concat_list("/tmp", &["it's.mp4".to_string()]);
    assert_eq!(quoted, "file 'it'\\''s.mp4'\n");
}

#[test]
fn segment_and_timestamp_text() {
    let (start, end) = split_segment("00:01:00-00:01:30").expect("segment");
    assert_eq!((start.as_str(), end.as_str()), ("00:01:00", "00:01:30"));
    let (start, end) = split_segment("10-25.5").expect("segment");
    assert_eq!(format!("{start}-{end}"), "10-25.5");
    assert_eq!(split_segment("10"), Err(FfxError::InvalidSegment("10".into())));
    assert_eq!(timestamp_fields("00: 01 :30").unwrap(), vec!["00", "01", "30"]);
    assert_eq!(timestamp_fields(" 25.5 ").unwrap(), vec!["25.5"]);
    assert_eq!(timestamp_fields("1:2:3:4"), Err(FfxError::InvalidTimestamp("1:2:3:4".into())));
    assert_eq!(timestamp_fields("::").unwrap(), vec!["", "", ""]);
}

#[test]
fn cut_range_and_audio_check() {
    let mut args = CutArgs {
        inputs: vec!["in.mp4".into()],
        output: no_output(),
        from: Some("10".into()),
        to: None,
        segments: vec![],
        split: false,
        sort_segments: false,
        reencode: false,
        fallback_reencode: true,
    };
    assert_eq!(range_ends(&args), Err(FfxError::MissingRange));
    args.to = Some("20".into());
    assert_eq!(range_ends(&args), Ok(("10".to_string(), "20".to_string())));
    assert_eq!(check_output_audio(1, 0), Err(FfxError::OutputMissingAudio));
    assert_eq!(check_output_audio(0, 0), Ok(()));
    assert_eq!(check_output_audio(2, 1), Ok(()));
}

#[test]
fn default_profile_filter_matches_readme() {
    let mut args = compress_args();
    args.preset = None;
    let profile = CompressionProfile::from_args(&args);
    assert_eq!(profile.max_height, Some(1080));
    assert_eq!(
        profile.video_filter().as_deref(),
        Some("scale='if(gt(ih,1080),trunc(iw*1080/ih/2)*2,iw)':'if(gt(ih,1080),1080,ih)'")
    );
}

#[test]
fn software_trim_reencode_keeps_crf_before_preset() {
    let trim = trim_command(&context(), "in.mp4", "5", "10", "out.mp4", true, &software());
    assert_eq!(
        trim.render(),
        "ffmpeg -hide_banner -y -ss 5 -i in.mp4 -t 10 -map 0:v:0 -map '0:a:0?' -sn -dn -c:v libx264 -crf 20 -preset medium -c:a aac -b:a 192k -movflags +faststart out.mp4"
    );
}
