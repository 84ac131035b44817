use convertoid::emote::{
    Emote, EmotePipeline, PipelineAction, PipelineError, PipelineEvent, PipelineStage,
    StepOutcome, StickerPolicy, ValidationError,
};
use convertoid::emote_ext::{EmoteId, EmoteIdExt, SevenTvId};

fn test_id() -> EmoteId {
    EmoteId::SevenTv(SevenTvId::parse_id("0123456789abcdef01234567").unwrap())
}

fn frame_names(n: usize) -> Vec<String> {
    (1..=n).map(|i| format!("{:04}.png", i)).collect()
}

/// A stub of the external collaborators: it answers each requested action
/// from canned data and counts how often each tool was invoked.
struct StubGateway {
    download_exists: bool,
    probe_text: String,
    raw_dir_empty: bool,
    resized_dir_empty: bool,
    raw_names: Vec<String>,
    resized_names: Vec<String>,
    extract_calls: usize,
    resize_calls: usize,
    fetch_calls: usize,
}

impl StubGateway {
    fn respond(&mut self, action: PipelineAction) -> PipelineEvent {
        match action {
            PipelineAction::StatDownloadFile => PipelineEvent::FileExists(self.download_exists),
            PipelineAction::FetchEmote => {
                self.fetch_calls += 1;
                PipelineEvent::Fetched(Ok(()))
            }
            PipelineAction::RunProbe => PipelineEvent::Probed(Ok(self.probe_text.clone())),
            PipelineAction::EnsureRawFramesDir => PipelineEvent::DirEnsured(Ok(())),
            PipelineAction::CheckRawFramesDirEmpty => {
                PipelineEvent::DirChecked(Ok(self.raw_dir_empty))
            }
            PipelineAction::RunExtract => {
                self.extract_calls += 1;
                self.raw_dir_empty = false;
                PipelineEvent::ToolRan(Ok(()))
            }
            PipelineAction::ListRawFramesDir => {
                PipelineEvent::Listed(Ok(("raw".to_string(), self.raw_names.clone())))
            }
            PipelineAction::EnsureResizedFramesDir => PipelineEvent::DirEnsured(Ok(())),
            PipelineAction::CheckResizedFramesDirEmpty => {
                PipelineEvent::DirChecked(Ok(self.resized_dir_empty))
            }
            PipelineAction::RunResize => {
                self.resize_calls += 1;
                self.resized_dir_empty = false;
                PipelineEvent::ToolRan(Ok(()))
            }
            PipelineAction::ListResizedFramesDir => {
                PipelineEvent::Listed(Ok(("resized".to_string(), self.resized_names.clone())))
            }
        }
    }
}

fn run(gateway: &mut StubGateway) -> Result<Emote, PipelineError> {
    let mut machine = EmotePipeline::new(test_id(), StickerPolicy::default());
    loop {
        let event = gateway.respond(machine.stage.action());
        match machine.step(event) {
            StepOutcome::Next(next) => machine = next,
            StepOutcome::Done(emote) => return Ok(emote),
            StepOutcome::Failed(err) => return Err(err),
        }
    }
}

fn animated_gateway() -> StubGateway {
    StubGateway {
        download_exists: false,
        probe_text: "  Duration: 100\n  Duration: 100\n  Duration: 100\n  Canvas size 512 x 512\n"
            .to_string(),
        raw_dir_empty: true,
        resized_dir_empty: true,
        raw_names: frame_names(3),
        resized_names: frame_names(3),
        extract_calls: 0,
        resize_calls: 0,
        fetch_calls: 0,
    }
}

#[test]
fn an_animated_emote_runs_the_whole_pipeline() {
    let mut gw = animated_gateway();
    let emote = run(&mut gw).unwrap();
    assert_eq!(gw.fetch_calls, 1);
    assert_eq!(gw.extract_calls, 1);
    assert_eq!(gw.resize_calls, 1);
    assert_eq!(emote.info.durations, vec![100, 100, 100]);
    assert_eq!(emote.raw_frames.files.len(), 3);
    assert_eq!(emote.resized_frames.files.len(), 3);
    assert_eq!(emote.raw_frames.dir, "raw");
    assert_eq!(emote.resized_frames.dir, "resized");
}

#[test]
fn a_second_run_skips_every_finished_step() {
    let mut gw = animated_gateway();
    run(&mut gw).unwrap();

    // The artifacts are now on disk: the download exists and both frame
    // directories are populated. A re-run must invoke no tool again.
    gw.download_exists = true;
    let before_extract = gw.extract_calls;
    let before_resize = gw.resize_calls;
    let before_fetch = gw.fetch_calls;
    let emote = run(&mut gw).unwrap();
    assert_eq!(gw.extract_calls, before_extract);
    assert_eq!(gw.resize_calls, before_resize);
    assert_eq!(gw.fetch_calls, before_fetch);
    assert_eq!(emote.raw_frames.files.len(), 3);
}

#[test]
fn an_existing_download_skips_the_fetch() {
    let mut gw = animated_gateway();
    gw.download_exists = true;
    run(&mut gw).unwrap();
    assert_eq!(gw.fetch_calls, 0);
}

#[test]
fn a_frame_count_mismatch_fails_the_item() {
    let mut gw = animated_gateway();
    gw.raw_names = frame_names(2);
    let err = run(&mut gw).unwrap_err();
    assert!(matches!(
        err,
        PipelineError::FrameCountMismatch { resolved: 2, expected: 3 }
    ));
}

#[test]
fn a_static_emote_skips_the_frame_count_check() {
    let mut gw = animated_gateway();
    gw.probe_text = "  Canvas size 512 x 512\n".to_string();
    gw.raw_names = frame_names(1);
    gw.resized_names = frame_names(1);
    let emote = run(&mut gw).unwrap();
    assert!(emote.info.durations.is_empty());
}

#[test]
fn validation_failures_end_the_item_before_extraction() {
    let mut gw = animated_gateway();
    gw.probe_text = "  Duration: 5\n  Duration: 20\n  Canvas size 512 x 512\n".to_string();
    let err = run(&mut gw).unwrap_err();
    assert!(matches!(
        err,
        PipelineError::Validation(ValidationError::TooShortFrames)
    ));
    assert_eq!(gw.extract_calls, 0);
}

#[test]
fn an_unreadable_probe_output_is_a_parse_error() {
    let mut gw = animated_gateway();
    gw.probe_text = "no markers here\n".to_string();
    let err = run(&mut gw).unwrap_err();
    assert!(matches!(err, PipelineError::Parse(_)));
}

#[test]
fn a_failed_fetch_fails_the_item() {
    let machine = EmotePipeline::new(test_id(), StickerPolicy::default());
    let machine = match machine.step(PipelineEvent::FileExists(false)) {
        StepOutcome::Next(m) => m,
        _ => panic!("expected the fetch stage"),
    };
    assert!(matches!(machine.stage, PipelineStage::Fetch));
    let out = machine.step(PipelineEvent::Fetched(Err("connection refused".to_string())));
    assert!(matches!(out, StepOutcome::Failed(PipelineError::Fetch(m)) if m == "connection refused"));
}

#[test]
fn non_text_probe_output_is_a_decode_failure() {
    let machine = EmotePipeline::new(test_id(), StickerPolicy::default());
    let machine = match machine.step(PipelineEvent::FileExists(true)) {
        StepOutcome::Next(m) => m,
        _ => panic!("expected the probe stage"),
    };
    let out = machine.step(PipelineEvent::Probed(Err(
        convertoid::emote::ProbeFailure::NotText,
    )));
    assert!(matches!(out, StepOutcome::Failed(PipelineError::Decode)));
}

#[test]
fn an_unlistable_directory_is_a_directory_error() {
    let mut gw = animated_gateway();
    let err = {
        // Replace the raw listing with a failure partway through the run.
        let mut machine = EmotePipeline::new(test_id(), StickerPolicy::default());
        loop {
            let action = machine.stage.action();
            let event = if matches!(action, PipelineAction::ListRawFramesDir) {
                PipelineEvent::Listed(Err("permission denied".to_string()))
            } else {
                gw.respond(action)
            };
            match machine.step(event) {
                StepOutcome::Next(next) => machine = next,
                StepOutcome::Done(_) => panic!("expected a failure"),
                StepOutcome::Failed(err) => break err,
            }
        }
    };
    assert!(matches!(err, PipelineError::Dir(m) if m == "permission denied"));
}

#[test]
fn a_gapped_frame_directory_fails_the_item() {
    let mut gw = animated_gateway();
    gw.raw_names = vec!["0001.png".to_string(), "0003.png".to_string(), "0004.png".to_string()];
    let err = run(&mut gw).unwrap_err();
    assert!(matches!(err, PipelineError::Sequence(_)));
}
