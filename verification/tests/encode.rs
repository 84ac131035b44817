use convertoid::emote::{
    Emote, EncodeAction, EncodeEvent, EncodeOutcome, EncodeStage, PipelineError, StickerEncoder,
    StickerPolicy, quality_preset,
};
use convertoid::emote_ext::{EmoteId, EmoteIdExt, SevenTvId};
use convertoid::file_sequence::{FileSequence, SequenceElement};
use convertoid::webp::WebpInfo;

fn test_emote(durations: Vec<i32>, frame_count: usize) -> Emote {
    let files = (1..=frame_count)
        .map(|i| SequenceElement { index: i, file_name: format!("{:04}.png", i) })
        .collect::<Vec<_>>();
    Emote {
        id: EmoteId::SevenTv(SevenTvId::parse_id("0123456789abcdef01234567").unwrap()),
        info: WebpInfo { durations, size: (512, 512) },
        raw_frames: FileSequence { dir: "raw".to_string(), files: files.clone() },
        resized_frames: FileSequence { dir: "resized".to_string(), files },
    }
}

/// Drives the encoder against a stub whose attempt sizes are given; counts
/// how many encode invocations happen and which attempt each one used.
fn run_with_sizes(emote: &Emote, sizes: &[u64]) -> (Result<(), PipelineError>, Vec<usize>) {
    let mut encoder = StickerEncoder::new(emote, StickerPolicy::default());
    let mut encoded_attempts: Vec<usize> = Vec::new();
    loop {
        let event = match (&encoder.stage, encoder.stage.action()) {
            (EncodeStage::EncodeAnimated { attempt, .. }, EncodeAction::RunEncodeAnimated) => {
                encoded_attempts.push(*attempt);
                EncodeEvent::ToolRan(Ok(()))
            }
            (EncodeStage::MeasureOutput { attempt, .. }, EncodeAction::MeasureOutputSize) => {
                EncodeEvent::Measured(Ok(sizes[*attempt]))
            }
            (EncodeStage::EncodeStatic, EncodeAction::RunEncodeStatic) => {
                EncodeEvent::ToolRan(Ok(()))
            }
            _ => panic!("stage and action disagree"),
        };
        match encoder.step(event) {
            EncodeOutcome::Next(next) => encoder = next,
            EncodeOutcome::Done => return (Ok(()), encoded_attempts),
            EncodeOutcome::Failed(err) => return (Err(err), encoded_attempts),
        }
    }
}

const KIB: u64 = 1024;

#[test]
fn the_loop_accepts_the_first_fitting_preset_and_stops() {
    let emote = test_emote(vec![100, 100, 100], 3);
    let sizes = [600 * KIB, 550 * KIB, 520 * KIB, 480 * KIB, 100 * KIB];
    let (result, attempts) = run_with_sizes(&emote, &sizes);
    assert!(result.is_ok());
    // The fourth preset fits the 500 KiB ceiling; the fifth is never tried.
    assert_eq!(attempts, vec![0, 1, 2, 3]);
}

#[test]
fn every_preset_oversized_reports_the_size_limit() {
    let emote = test_emote(vec![100, 100], 2);
    let sizes = [600 * KIB; 5];
    let (result, attempts) = run_with_sizes(&emote, &sizes);
    assert!(matches!(result, Err(PipelineError::SizeLimitExceeded)));
    assert_eq!(attempts, vec![0, 1, 2, 3, 4]);
}

#[test]
fn a_first_attempt_at_the_ceiling_is_accepted() {
    let emote = test_emote(vec![100], 1);
    let sizes = [500 * KIB, 0, 0, 0, 0];
    let (result, attempts) = run_with_sizes(&emote, &sizes);
    assert!(result.is_ok());
    assert_eq!(attempts, vec![0]);
}

#[test]
fn a_static_emote_takes_the_static_path() {
    let emote = test_emote(vec![], 1);
    let encoder = StickerEncoder::new(&emote, StickerPolicy::default());
    assert!(matches!(encoder.stage, EncodeStage::EncodeStatic));
    let out = encoder.step(EncodeEvent::ToolRan(Ok(())));
    assert!(matches!(out, EncodeOutcome::Done));
}

#[test]
fn frames_pair_durations_and_presets_positionally() {
    let emote = test_emote(vec![40, 80, 120], 3);
    let encoder = StickerEncoder::new(&emote, StickerPolicy::default());
    let frames = match &encoder.stage {
        EncodeStage::EncodeAnimated { frames, attempt: 0 } => frames,
        _ => panic!("expected the first animated attempt"),
    };
    assert_eq!(frames.len(), 3);
    let p0 = quality_preset(0);
    assert_eq!((p0.quality, p0.level), (75, 4));
    for (i, f) in frames.iter().enumerate() {
        assert_eq!(f.path, format!("resized/{:04}.png", i + 1));
        assert_eq!(f.duration, emote.info.durations[i]);
        assert_eq!(f.compression_quality, 75);
        assert_eq!(f.compression_method, 4);
    }
}

#[test]
fn a_retry_overwrites_quality_and_method_only() {
    let emote = test_emote(vec![40, 80], 2);
    let encoder = StickerEncoder::new(&emote, StickerPolicy::default());
    let encoder = match encoder.step(EncodeEvent::ToolRan(Ok(()))) {
        EncodeOutcome::Next(e) => e,
        _ => panic!("expected the measure stage"),
    };
    let encoder = match encoder.step(EncodeEvent::Measured(Ok(600 * KIB))) {
        EncodeOutcome::Next(e) => e,
        _ => panic!("expected a second attempt"),
    };
    let frames = match &encoder.stage {
        EncodeStage::EncodeAnimated { frames, attempt: 1 } => frames,
        _ => panic!("expected the second animated attempt"),
    };
    let p1 = quality_preset(1);
    assert_eq!((p1.quality, p1.level), (50, 4));
    for (i, f) in frames.iter().enumerate() {
        assert_eq!(f.path, format!("resized/{:04}.png", i + 1));
        assert_eq!(f.duration, emote.info.durations[i]);
        assert_eq!(f.compression_quality, 50);
        assert_eq!(f.compression_method, 4);
    }
}

#[test]
fn the_preset_ladder_degrades_in_quality() {
    let expected = [(75, 4), (50, 4), (25, 4), (10, 4), (10, 6)];
    for (i, &(q, m)) in expected.iter().enumerate() {
        let p = quality_preset(i);
        assert_eq!((p.quality, p.level), (q, m));
    }
}

#[test]
fn an_encoder_failure_is_a_tool_error() {
    let emote = test_emote(vec![100], 1);
    let encoder = StickerEncoder::new(&emote, StickerPolicy::default());
    let failure = convertoid::binaries::ToolFailure {
        program: "img2webp".to_string(),
        args: vec![],
        stderr: "boom".to_string(),
    };
    let out = encoder.step(EncodeEvent::ToolRan(Err(failure)));
    assert!(matches!(out, EncodeOutcome::Failed(PipelineError::Tool(_))));
}
