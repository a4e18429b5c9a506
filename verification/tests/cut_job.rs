use ffx::cli::{CutArgs, OutputOptions};
use ffx::commands::cut::{CheckTarget, CutAction, CutEvent, CutJob};
use ffx::error::FfxError;
use ffx::utils::hwaccel::{HwAccelCapabilities, VideoEncoderKind};
use ffx::utils::log::Logger;
use ffx::utils::runner::AppContext;

fn context() -> AppContext {
    AppContext::new(true, 1, "ffmpeg".into(), "ffprobe".into(), Logger::new(false)).expect("context")
}

fn args(split: bool, output: Option<&str>) -> CutArgs {
    CutArgs {
        inputs: vec!["in.mp4".into()],
        output: OutputOptions { output: output.map(|s| s.to_string()), output_dir: None },
        from: None,
        to: None,
        segments: vec![],
        split,
        sort_segments: false,
        reencode: false,
        fallback_reencode: true,
    }
}

fn ranges(n: usize) -> Vec<(String, String)> {
    (0..n).map(|i| (format!("00:00:{:02}", i * 10), "00:00:05".to_string())).collect()
}

#[test]
fn single_trim_retries_with_reencode() {
    let context = context();
    let mut job = CutJob::new(&args(false, None), "in.mp4", ranges(1), HwAccelCapabilities::software());
    match job.step(&context, CutEvent::Succeeded) {
        CutAction::PrepareOutput(p) => assert_eq!(p, "in_cut.mp4"),
        other => panic!("unexpected {other:?}"),
    }
    match job.step(&context, CutEvent::Succeeded) {
        CutAction::RunChecked { spec, output, target, warning } => {
            assert_eq!(output, "in_cut.mp4");
            assert_eq!(target, CheckTarget::Segment(0));
            assert_eq!(warning, None);
            assert!(spec.args().contains(&"copy".to_string()));
        }
        other => panic!("unexpected {other:?}"),
    }
    match job.step(&context, CutEvent::Failed) {
        CutAction::RunChecked { spec, warning, .. } => {
            assert_eq!(
                warning.as_deref(),
                Some("copy trim verification failed for in.mp4; retrying with re-encode")
            );
            assert!(spec.args().contains(&"libx264".to_string()));
        }
        other => panic!("unexpected {other:?}"),
    }
    assert!(matches!(job.step(&context, CutEvent::Failed), CutAction::Abort(None)));
}

#[test]
fn split_with_exact_output_stops_at_second_segment() {
    let context = context();
    let mut job = CutJob::new(&args(true, Some("x.mp4")), "in.mp4", ranges(2), HwAccelCapabilities::software());
    assert!(matches!(job.step(&context, CutEvent::Succeeded), CutAction::PrepareOutput(p) if p == "x.mp4"));
    match job.step(&context, CutEvent::Succeeded) {
        CutAction::RunChecked { spec, .. } => assert!(spec.args().contains(&"libx264".to_string())),
        other => panic!("unexpected {other:?}"),
    }
    match job.step(&context, CutEvent::Succeeded) {
        CutAction::Abort(Some(e)) => assert_eq!(e, FfxError::OutputWithManySegments),
        other => panic!("unexpected {other:?}"),
    }
}

#[test]
fn split_writes_numbered_parts() {
    let context = context();
    let mut job = CutJob::new(&args(true, None), "in.mp4", ranges(2), HwAccelCapabilities::software());
    let mut outputs = Vec::new();
    let mut event = CutEvent::Succeeded;
    loop {
        match job.step(&context, event) {
            CutAction::PrepareOutput(p) => outputs.push(p),
            CutAction::RunChecked { .. } => {}
            CutAction::Finish => break,
            other => panic!("unexpected {other:?}"),
        }
        event = CutEvent::Succeeded;
    }
    assert_eq!(outputs, vec!["in.part01.mp4", "in.part02.mp4"]);
}

#[test]
fn merge_extracts_lists_and_falls_back() {
    let context = context();
    let mut job = CutJob::new(&args(false, None), "in.mp4", ranges(2), HwAccelCapabilities::software());
    assert!(matches!(job.step(&context, CutEvent::Succeeded), CutAction::PrepareOutput(p) if p == "in_cut.mp4"));
    assert!(matches!(job.step(&context, CutEvent::Succeeded), CutAction::MakeTempDir));
    match job.step(&context, CutEvent::TempDirReady("/tmp/t".into())) {
        CutAction::RunPlan(specs) => {
            assert_eq!(specs.len(), 2);
            assert_eq!(specs[1].args().last().map(|s| s.as_str()), Some("/tmp/t/part_001.mp4"));
        }
        other => panic!("unexpected {other:?}"),
    }
    match job.step(&context, CutEvent::Succeeded) {
        CutAction::WriteFile(path, content) => {
            assert_eq!(path, "/tmp/t/concat.txt");
            assert_eq!(content, "file '/tmp/t/part_000.mp4'\nfile '/tmp/t/part_001.mp4'\n");
        }
        other => panic!("unexpected {other:?}"),
    }
    match job.step(&context, CutEvent::Succeeded) {
        CutAction::RunChecked { spec, target, warning, .. } => {
            assert_eq!(target, CheckTarget::Total);
            assert_eq!(warning, None);
            assert!(spec.args().contains(&"copy".to_string()));
        }
        other => panic!("unexpected {other:?}"),
    }
    match job.step(&context, CutEvent::Failed) {
        CutAction::RunChecked { spec, warning, .. } => {
            assert_eq!(
                warning.as_deref(),
                Some("concat copy verification failed for in.mp4; retrying with re-encode")
            );
            assert!(spec.args().contains(&"libx264".to_string()));
        }
        other => panic!("unexpected {other:?}"),
    }
    assert!(matches!(job.step(&context, CutEvent::Succeeded), CutAction::Finish));
}

#[test]
fn reencoded_retry_uses_hardware_encoder() {
    let context = context();
    let caps = HwAccelCapabilities {
        encoder: VideoEncoderKind::VideoToolbox,
        encoder_name: "h264_videotoolbox".into(),
        hwaccel: Some("videotoolbox".into()),
    };
    let mut job = CutJob::new(&args(false, None), "in.mp4", ranges(1), caps);
    assert!(matches!(job.step(&context, CutEvent::Succeeded), CutAction::PrepareOutput(_)));
    match job.step(&context, CutEvent::Succeeded) {
        CutAction::RunChecked { spec, .. } => {
            assert!(!spec.args().contains(&"-hwaccel".to_string()));
            assert!(spec.args().contains(&"copy".to_string()));
        }
        other => panic!("unexpected {other:?}"),
    }
    match job.step(&context, CutEvent::Failed) {
        CutAction::RunChecked { spec, .. } => {
            let a = spec.args();
            let i = a.iter().position(|x| x == "-i").expect("input");
            assert_eq!(a[i - 2], "-hwaccel");
            assert_eq!(a[i - 1], "videotoolbox");
            let c = a.iter().position(|x| x == "-c:v").expect("encoder");
            assert_eq!(a[c + 1], "h264_videotoolbox");
        }
        other => panic!("unexpected {other:?}"),
    }
}
