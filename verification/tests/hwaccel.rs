use ffx::utils::hwaccel::{
    HwAccelCapabilities, NameSet, VideoEncodeSettings, VideoEncoderKind, append_h264_encode_args,
    crf_to_videotoolbox_q, detect_hw_capabilities, fallback_hwaccel, insert_hwaccel_before_input,
    append_crf_encode_args, is_fast_preset, map_amf_quality, map_nvenc_preset, map_qsv_preset, parse_encoder_names,
    parse_hwaccel_names, pick_encoder,
};

#[test]
fn parses_encoder_and_hwaccel_lists() {
    let encoders = parse_encoder_names(
        " Encoders:\n V..... h264_videotoolbox    VideoToolbox H.264 Encoder\n V..... libx264              libx264 H.264\n",
    );
    assert!(encoders.contains("h264_videotoolbox"));
    assert!(encoders.contains("libx264"));

    let hwaccels = parse_hwaccel_names("Hardware acceleration methods:\nvideotoolbox\ncuda\n");
    assert!(hwaccels.contains("videotoolbox"));
    assert!(hwaccels.contains("cuda"));
}

#[test]
fn prefers_videotoolbox_on_mac_when_available() {
    let encoders = NameSet::from_names(vec!["h264_videotoolbox".into(), "libx264".into()]);
    let hwaccels = NameSet::from_names(vec!["videotoolbox".into()]);
    let caps = pick_encoder(&encoders, &hwaccels);
    assert_eq!(caps.encoder, VideoEncoderKind::VideoToolbox);
    assert_eq!(caps.encoder_name, "h264_videotoolbox");
    assert_eq!(caps.hwaccel.as_deref(), Some("videotoolbox"));
}

#[test]
fn falls_back_to_software_when_no_hardware_encoder() {
    let encoders = NameSet::from_names(vec!["libx264".into()]);
    let hwaccels = NameSet::new();
    let caps = pick_encoder(&encoders, &hwaccels);
    assert_eq!(caps, HwAccelCapabilities::software());
}

#[test]
fn maps_crf_to_videotoolbox_quality() {
    assert_eq!(crf_to_videotoolbox_q(23), 65);
    assert_eq!(crf_to_videotoolbox_q(18), 60);
}

#[test]
fn inserts_hwaccel_before_input() {
    let caps = HwAccelCapabilities {
        encoder: VideoEncoderKind::VideoToolbox,
        encoder_name: "h264_videotoolbox".into(),
        hwaccel: Some("videotoolbox".into()),
    };
    let mut args = vec![
        "-hide_banner".into(),
        "-y".into(),
        "-ss".into(),
        "10".into(),
        "-i".into(),
        "clip.mp4".into(),
    ];
    insert_hwaccel_before_input(&mut args, &caps);
    assert_eq!(
        args,
        vec![
            "-hide_banner",
            "-y",
            "-ss",
            "10",
            "-hwaccel",
            "videotoolbox",
            "-i",
            "clip.mp4"
        ]
    );
}

#[test]
fn videotoolbox_quality_is_clamped_to_one_hundred() {
    assert_eq!(crf_to_videotoolbox_q(0), 42);
    assert_eq!(crf_to_videotoolbox_q(58), 100);
    assert_eq!(crf_to_videotoolbox_q(59), 100);
    assert_eq!(crf_to_videotoolbox_q(255), 100);
}

#[test]
fn hwaccel_insertion_without_input_or_method_changes_nothing() {
    let caps = HwAccelCapabilities {
        encoder: VideoEncoderKind::Nvenc,
        encoder_name: "h264_nvenc".into(),
        hwaccel: Some("cuda".into()),
    };
    let mut args: Vec<String> = vec!["-y".into(), "out.mp4".into()];
    insert_hwaccel_before_input(&mut args, &caps);
    assert_eq!(args, vec!["-y", "out.mp4"]);

    let mut args: Vec<String> = vec!["-i".into(), "a".into(), "-i".into(), "b".into()];
    insert_hwaccel_before_input(&mut args, &HwAccelCapabilities::software());
    assert_eq!(args, vec!["-i", "a", "-i", "b"]);

    insert_hwaccel_before_input(&mut args, &caps);
    assert_eq!(args, vec!["-hwaccel", "cuda", "-i", "a", "-i", "b"]);
}

#[test]
fn software_caps_do_not_use_hardware() {
    let caps = HwAccelCapabilities::software();
    assert_eq!(caps.encoder, VideoEncoderKind::Software);
    assert_eq!(caps.encoder_name, "libx264");
    assert_eq!(caps.hwaccel, None);
    assert!(!caps.uses_hardware());
    let hw = HwAccelCapabilities {
        encoder: VideoEncoderKind::Qsv,
        encoder_name: "h264_qsv".into(),
        hwaccel: None,
    };
    assert!(hw.uses_hardware());
}

#[test]
fn encoder_table_order_and_fallback_methods() {
    let all = NameSet::from_names(vec![
        "h264_amf".into(),
        "h264_qsv".into(),
        "h264_nvenc".into(),
    ]);
    let hwaccels = NameSet::from_names(vec!["nvdec".into(), "auto".into()]);
    let caps = pick_encoder(&all, &hwaccels);
    assert_eq!(caps.encoder, VideoEncoderKind::Nvenc);
    assert_eq!(caps.encoder_name, "h264_nvenc");
    assert_eq!(caps.hwaccel.as_deref(), Some("nvdec"));

    let amf = NameSet::from_names(vec!["h264_amf".into()]);
    let caps = pick_encoder(&amf, &NameSet::from_names(vec!["dxva2".into(), "auto".into()]));
    assert_eq!(caps.encoder, VideoEncoderKind::Amf);
    assert_eq!(caps.hwaccel.as_deref(), Some("dxva2"));

    let qsv = NameSet::from_names(vec!["h264_qsv".into()]);
    let caps = pick_encoder(&qsv, &NameSet::from_names(vec!["cuda".into()]));
    assert_eq!(caps.encoder, VideoEncoderKind::Qsv);
    assert_eq!(caps.hwaccel, None);

    assert_eq!(fallback_hwaccel(VideoEncoderKind::VideoToolbox, &hwaccels), None);
    assert_eq!(fallback_hwaccel(VideoEncoderKind::Nvenc, &hwaccels).as_deref(), Some("nvdec"));
}

#[test]
fn name_set_holds_each_name_once_inserted() {
    let mut set = NameSet::new();
    assert!(!set.contains("cuda"));
    set.insert("cuda".into());
    set.insert("cuda".into());
    assert!(set.contains("cuda"));
    assert!(!set.contains("qsv"));
}

#[test]
fn detection_disabled_or_without_listings() {
    let listing = " V..... h264_nvenc NVIDIA\n A..... aac AAC\n";
    let caps = detect_hw_capabilities(false, Some(listing), Some("Methods:\ncuda\n"));
    assert_eq!(caps, HwAccelCapabilities::software());
    let caps = detect_hw_capabilities(true, Some(listing), Some("Methods:\n  cuda  \n\n"));
    assert_eq!(caps.encoder, VideoEncoderKind::Nvenc);
    assert_eq!(caps.hwaccel.as_deref(), Some("cuda"));
    let caps = detect_hw_capabilities(true, None, None);
    assert_eq!(caps, HwAccelCapabilities::software());
    let names = parse_encoder_names(" A..... h264_nvenc audio?\n");
    assert!(!names.contains("h264_nvenc"));
    let methods = parse_hwaccel_names("cuda\n");
    assert!(!methods.contains("cuda"));
}

#[test]
fn preset_mappings() {
    assert!(is_fast_preset("veryfast"));
    assert!(!is_fast_preset("medium"));
    assert_eq!(map_nvenc_preset(Some("superfast")), Some("p1"));
    assert_eq!(map_nvenc_preset(Some("fast")), Some("p3"));
    assert_eq!(map_nvenc_preset(Some("medium")), Some("p5"));
    assert_eq!(map_nvenc_preset(Some("veryslow")), Some("p7"));
    assert_eq!(map_nvenc_preset(Some("placebo")), Some("p5"));
    assert_eq!(map_nvenc_preset(None), None);
    assert_eq!(map_qsv_preset(Some("faster")), Some("veryfast"));
    assert_eq!(map_qsv_preset(Some("slower")), Some("veryslow"));
    assert_eq!(map_qsv_preset(Some("medium")), Some("medium"));
    assert_eq!(map_amf_quality(Some("ultrafast")), Some("speed"));
    assert_eq!(map_amf_quality(Some("slow")), Some("quality"));
    assert_eq!(map_amf_quality(Some("x")), Some("balanced"));
    assert_eq!(map_amf_quality(None), None);
}

fn settings(preset: Option<&str>, bitrate: Option<&str>) -> VideoEncodeSettings {
    VideoEncodeSettings {
        crf: 23,
        x264_preset: preset.map(|p| p.to_string()),
        video_bitrate: bitrate.map(|b| b.to_string()),
        maxrate: bitrate.map(|_| "4000k".to_string()),
        bufsize: None,
    }
}

fn caps(kind: VideoEncoderKind, name: &str) -> HwAccelCapabilities {
    HwAccelCapabilities { encoder: kind, encoder_name: name.into(), hwaccel: None }
}

#[test]
fn h264_encode_arguments_per_encoder() {
    let mut args: Vec<String> = vec!["-i".into()];
    append_h264_encode_args(&mut args, &HwAccelCapabilities::software(), &settings(Some("fast"), None));
    assert_eq!(args, vec!["-i", "-c:v", "libx264", "-preset", "fast", "-crf", "23"]);

    let mut args: Vec<String> = Vec::new();
    append_h264_encode_args(&mut args, &caps(VideoEncoderKind::VideoToolbox, "h264_videotoolbox"), &settings(Some("fast"), None));
    assert_eq!(args, vec!["-c:v", "h264_videotoolbox", "-q:v", "65", "-prio_speed", "1"]);

    let mut args: Vec<String> = Vec::new();
    append_h264_encode_args(&mut args, &caps(VideoEncoderKind::Nvenc, "h264_nvenc"), &settings(Some("slow"), None));
    assert_eq!(args, vec!["-c:v", "h264_nvenc", "-rc:v", "vbr", "-cq:v", "23", "-preset", "p7"]);

    let mut args: Vec<String> = Vec::new();
    append_h264_encode_args(&mut args, &caps(VideoEncoderKind::Qsv, "h264_qsv"), &settings(None, None));
    assert_eq!(args, vec!["-c:v", "h264_qsv", "-global_quality", "23"]);

    let mut args: Vec<String> = Vec::new();
    append_h264_encode_args(&mut args, &caps(VideoEncoderKind::Amf, "h264_amf"), &settings(Some("medium"), None));
    assert_eq!(args, vec!["-c:v", "h264_amf", "-rc", "cqp", "-qp_i", "23", "-qp_p", "23", "-quality", "balanced"]);

    let mut args: Vec<String> = Vec::new();
    append_h264_encode_args(&mut args, &caps(VideoEncoderKind::VideoToolbox, "h264_videotoolbox"), &settings(Some("fast"), Some("2000k")));
    assert_eq!(args, vec!["-c:v", "h264_videotoolbox", "-b:v", "2000k", "-maxrate", "4000k", "-allow_sw", "1"]);
}

#[test]
fn appended_arguments_keep_prefix_and_pick_rate_control() {
    let quality_flags = ["-crf", "-q:v", "-cq:v", "-global_quality", "-qp_i"];
    let kinds = [
        (VideoEncoderKind::VideoToolbox, "h264_videotoolbox"),
        (VideoEncoderKind::Nvenc, "h264_nvenc"),
        (VideoEncoderKind::Qsv, "h264_qsv"),
        (VideoEncoderKind::Amf, "h264_amf"),
        (VideoEncoderKind::Software, "libx264"),
    ];
    for (kind, name) in kinds {
        for bitrate in [None, Some("2000k")] {
            let before: Vec<String> = vec!["-hide_banner".into(), "-i".into(), "in.mov".into()];
            let mut args = before.clone();
            append_h264_encode_args(&mut args, &caps(kind, name), &settings(Some("slow"), bitrate));
            assert_eq!(&args[..3], &before[..]);
            assert_eq!(args[3], "-c:v");
            assert_eq!(args[4], name);
            let appended = &args[3..];
            assert_eq!(appended.iter().any(|a| a == "-b:v"), bitrate.is_some(), "{name}");
            if bitrate.is_some() {
                assert!(appended.iter().all(|a| !quality_flags.contains(&a.as_str())), "{name}");
            }
        }
    }
}

#[test]
fn reencode_arguments_put_crf_before_preset_for_libx264() {
    let mut args: Vec<String> = Vec::new();
    append_crf_encode_args(&mut args, &HwAccelCapabilities::software(), 20, "medium");
    assert_eq!(args, vec!["-c:v", "libx264", "-crf", "20", "-preset", "medium"]);
    let mut args: Vec<String> = Vec::new();
    append_crf_encode_args(&mut args, &caps(VideoEncoderKind::Nvenc, "h264_nvenc"), 20, "medium");
    assert_eq!(args, vec!["-c:v", "h264_nvenc", "-rc:v", "vbr", "-cq:v", "20", "-preset", "p5"]);
}
