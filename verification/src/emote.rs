//! The per-emote conversion pipeline: a state machine that walks one emote
//! through download, probe, validation, frame extraction, resize and
//! encode. The machine only decides; every outside effect (HTTP, running a
//! tool, touching the filesystem) is an action handed to the caller, whose
//! observed result comes back as an event.

use vstd::prelude::*;
use crate::binaries::Img2WebpFrame;
use crate::binaries::ToolFailure;
use crate::emote_ext::EmoteId;
use crate::file_sequence::{
    FileSequence, SequenceError, file_sequence_from_names, pair_of, resolve_err, resolve_ok,
};
use crate::text::{path_join, split_lines};
use crate::webp::{
    ParseError, WebpInfo, duration_values, lemma_total_map, parse_accepts, parse_rejects_missing,
    parse_rejects_overflow, parsed_info, total_of, total_vals,
};

verus! {

/// Minimum duration of one animation frame, in milliseconds.
pub const ANIMATED_MIN_FRAME_DURATION_MS: i32 = 8;

/// Maximum summed duration of an animation, in milliseconds.
pub const ANIMATED_MAX_TOTAL_DURATION_MS: i32 = 10000;

/// Ceiling on an animated sticker file's size, in bytes.
pub const ANIMATED_SIZE_LIMIT: u64 = 500 * 1024;

/// Ceiling on a static sticker file's size, in bytes. Defined by the
/// sticker format but deliberately unenforced here: the static path has no
/// retry loop, matching the converter's behaviour.
pub const STATIC_SIZE_LIMIT: u64 = 100 * 1024;

/// How many quality presets the degrading-quality retry loop tries.
pub const QUALITY_PRESET_COUNT: usize = 5;

/// The sticker-compliance thresholds, as configurable values rather than
/// facts of the format.
#[derive(Debug, Clone, Copy, PartialEq, Eq, Structural)]
pub struct StickerPolicy {
    pub min_frame_duration_ms: i32,
    pub max_total_duration_ms: i32,
    pub animated_size_limit: u64,
    pub static_size_limit: u64,
}

impl Default for StickerPolicy {
    /// The WhatsApp sticker limits.
    fn default() -> (r: Self)
        ensures
            r.min_frame_duration_ms == ANIMATED_MIN_FRAME_DURATION_MS,
            r.max_total_duration_ms == ANIMATED_MAX_TOTAL_DURATION_MS,
            r.animated_size_limit == ANIMATED_SIZE_LIMIT,
            r.static_size_limit == STATIC_SIZE_LIMIT,
    {
        StickerPolicy {
            min_frame_duration_ms: ANIMATED_MIN_FRAME_DURATION_MS,
            max_total_duration_ms: ANIMATED_MAX_TOTAL_DURATION_MS,
            animated_size_limit: ANIMATED_SIZE_LIMIT,
            static_size_limit: STATIC_SIZE_LIMIT,
        }
    }
}

/// A format-policy violation of an animated descriptor.
#[derive(Debug, Clone, Copy, PartialEq, Eq, Structural)]
pub enum ValidationError {
    /// Some frame is shorter than the minimum frame duration.
    TooShortFrames,
    /// The summed duration exceeds the maximum total.
    ExceedsMaxDuration,
}

/// Why one emote's pipeline ended without a sticker. An error is fatal for
/// the item alone, never for the batch.
#[derive(Debug)]
pub enum PipelineError {
    /// An external tool exited non-zero.
    Tool(ToolFailure),
    /// An external tool's output was not text.
    Decode,
    /// The probe output had no canvas-size line, or numbers too large.
    Parse(ParseError),
    /// The animation violates the sticker policy.
    Validation(ValidationError),
    /// Extraction produced a different frame count than the probe promised.
    FrameCountMismatch { resolved: usize, expected: usize },
    /// A frame directory's listing violates the sequence contract.
    Sequence(SequenceError),
    /// Every quality preset still exceeded the output-size ceiling.
    SizeLimitExceeded,
    /// The download could not be fetched or written.
    Fetch(String),
    /// A directory could not be created, checked or listed.
    Dir(String),
}

/// The successfully converted inputs of one emote, assembled only when the
/// whole preparation pipeline succeeded.
#[derive(Debug)]
pub struct Emote {
    pub id: EmoteId,
    pub info: WebpInfo,
    pub raw_frames: FileSequence,
    pub resized_frames: FileSequence,
}

/// One emote's outcome within a batch.
#[derive(Debug)]
pub struct BatchElement {
    pub id: EmoteId,
    pub result: Result<Emote, PipelineError>,
}

/// A descriptor that passed the validity gate: static, or every frame long
/// enough and the total short enough.
pub open spec fn durations_valid(info: WebpInfo, policy: StickerPolicy) -> bool {
    info.durations@.len() == 0 || ((forall|k: int|
        0 <= k < info.durations@.len() ==> #[trigger] info.durations@[k]
            >= policy.min_frame_duration_ms) && total_of(info.durations@)
        <= policy.max_total_duration_ms)
}

/// Applies the sticker validity gate to a parsed descriptor. A static
/// image always passes; an animation fails when some frame is below
/// `min_frame` (checked first) or the summed duration exceeds `max_total`
/// (the bound itself still passes).
pub fn validate_durations(info: &WebpInfo, min_frame: i32, max_total: i32) -> (r: Result<
    (),
    ValidationError,
>)
    requires
        info.wf(),
    ensures
        ({
            let d = info.durations@;
            match r {
                Result::Ok(()) => d.len() == 0 || ((forall|k: int|
                    0 <= k < d.len() ==> #[trigger] d[k] >= min_frame) && total_of(d)
                    <= max_total),
                Result::Err(ValidationError::TooShortFrames) => d.len() > 0 && exists|k: int|
                    0 <= k < d.len() && #[trigger] d[k] < min_frame,
                Result::Err(ValidationError::ExceedsMaxDuration) => d.len() > 0 && (forall|k: int|
                    0 <= k < d.len() ==> #[trigger] d[k] >= min_frame) && total_of(d) > max_total,
            }
        }),
{
    let ghost d = info.durations@;
    if info.durations.len() == 0 {
        return Ok(());
    }
    let mut i: usize = 0;
    while i < info.durations.len()
        invariant
            i <= d.len(),
            d == info.durations@,
            forall|k: int| 0 <= k < i ==> #[trigger] d[k] >= min_frame,
        decreases d.len() - i,
    {
        if info.durations[i] < min_frame {
            return Err(ValidationError::TooShortFrames);
        }
        i = i + 1;
    }
    let mut acc: i64 = 0;
    let mut j: usize = 0;
    proof {
        assert(d.take(0) =~= Seq::<i32>::empty());
    }
    while j < info.durations.len()
        invariant
            j <= d.len(),
            d == info.durations@,
            info.wf(),
            acc == total_of(d.take(j as int)),
            forall|k: int| 0 <= k < d.len() ==> #[trigger] d[k] >= min_frame,
            j == 0 ==> acc == 0,
            j > 0 ==> acc <= max_total,
        decreases d.len() - j,
    {
        proof {
            crate::webp::lemma_total_take_step(d, j as int);
        }
        acc = acc + info.durations[j] as i64;
        j = j + 1;
        if acc > max_total as i64 {
            proof {
                crate::webp::lemma_total_prefix_bounds(d, j as int);
            }
            return Err(ValidationError::ExceedsMaxDuration);
        }
    }
    proof {
        assert(d.take(d.len() as int) =~= d);
    }
    Ok(())
}

/// The probe step failed before producing any text.
#[derive(Debug)]
pub enum ProbeFailure {
    /// The probe binary exited non-zero.
    Tool(ToolFailure),
    /// The probe binary's output was not valid text.
    NotText,
}

/// Where one emote stands in its pipeline. Stages carry what later steps
/// consume: the parsed descriptor, then the resolved raw frames.
#[derive(Debug)]
pub enum PipelineStage {
    /// Does the download already exist on disk?
    CheckDownload,
    /// Fetch the emote and write it to the download path.
    Fetch,
    /// Run the probe tool on the downloaded file.
    Probe,
    /// Create the raw-frames directory if absent.
    PrepareRawDir { info: WebpInfo },
    /// Is the raw-frames directory still empty?
    CheckRawDir { info: WebpInfo },
    /// Run the frame-dump tool.
    Extract { info: WebpInfo },
    /// List the raw-frames directory and resolve the sequence.
    ResolveRaw { info: WebpInfo },
    /// Create the resized-frames directory if absent.
    PrepareResizedDir { info: WebpInfo, raw: FileSequence },
    /// Is the resized-frames directory still empty?
    CheckResizedDir { info: WebpInfo, raw: FileSequence },
    /// Run the resize tool over the whole frame pattern.
    Resize { info: WebpInfo, raw: FileSequence },
    /// List the resized-frames directory and resolve the sequence.
    ResolveResized { info: WebpInfo, raw: FileSequence },
}

/// The one outside effect the caller must perform for the current stage.
#[derive(Debug, Clone, Copy, PartialEq, Eq, Structural)]
pub enum PipelineAction {
    /// Report whether the download file exists.
    StatDownloadFile,
    /// Fetch the emote's bytes and write them to the download path.
    FetchEmote,
    /// Run the probe tool on the download and return its standard output.
    RunProbe,
    /// Create the raw-frames directory unless it exists.
    EnsureRawFramesDir,
    /// Report whether the raw-frames directory is empty.
    CheckRawFramesDirEmpty,
    /// Run the frame-dump tool into the raw-frames directory.
    RunExtract,
    /// List the raw-frames directory's entries.
    ListRawFramesDir,
    /// Create the resized-frames directory unless it exists.
    EnsureResizedFramesDir,
    /// Report whether the resized-frames directory is empty.
    CheckResizedFramesDirEmpty,
    /// Run the resize tool over the whole frame pattern.
    RunResize,
    /// List the resized-frames directory's entries.
    ListResizedFramesDir,
}

/// What the caller observed while performing the requested action.
#[derive(Debug)]
pub enum PipelineEvent {
    /// Whether the download file exists.
    FileExists(bool),
    /// The fetch-and-write finished, or failed with a message.
    Fetched(Result<(), String>),
    /// The probe ran: its standard output, or how it failed.
    Probed(Result<String, ProbeFailure>),
    /// The directory was created or found, or the attempt failed.
    DirEnsured(Result<(), String>),
    /// Whether the directory is empty, or why that could not be told.
    DirChecked(Result<bool, String>),
    /// The extract or resize tool finished.
    ToolRan(Result<(), ToolFailure>),
    /// The directory's file names, with the directory path, in any order.
    Listed(Result<(String, Vec<String>), String>),
}

impl PipelineStage {
    /// The action whose result this stage waits for.
    pub open spec fn spec_action(&self) -> PipelineAction {
        match self {
            PipelineStage::CheckDownload => PipelineAction::StatDownloadFile,
            PipelineStage::Fetch => PipelineAction::FetchEmote,
            PipelineStage::Probe => PipelineAction::RunProbe,
            PipelineStage::PrepareRawDir { .. } => PipelineAction::EnsureRawFramesDir,
            PipelineStage::CheckRawDir { .. } => PipelineAction::CheckRawFramesDirEmpty,
            PipelineStage::Extract { .. } => PipelineAction::RunExtract,
            PipelineStage::ResolveRaw { .. } => PipelineAction::ListRawFramesDir,
            PipelineStage::PrepareResizedDir { .. } => PipelineAction::EnsureResizedFramesDir,
            PipelineStage::CheckResizedDir { .. } => PipelineAction::CheckResizedFramesDirEmpty,
            PipelineStage::Resize { .. } => PipelineAction::RunResize,
            PipelineStage::ResolveResized { .. } => PipelineAction::ListResizedFramesDir,
        }
    }

    /// The action whose result this stage waits for.
    pub fn action(&self) -> (r: PipelineAction)
        ensures
            r == self.spec_action(),
    {
        match self {
            PipelineStage::CheckDownload => PipelineAction::StatDownloadFile,
            PipelineStage::Fetch => PipelineAction::FetchEmote,
            PipelineStage::Probe => PipelineAction::RunProbe,
            PipelineStage::PrepareRawDir { .. } => PipelineAction::EnsureRawFramesDir,
            PipelineStage::CheckRawDir { .. } => PipelineAction::CheckRawFramesDirEmpty,
            PipelineStage::Extract { .. } => PipelineAction::RunExtract,
            PipelineStage::ResolveRaw { .. } => PipelineAction::ListRawFramesDir,
            PipelineStage::PrepareResizedDir { .. } => PipelineAction::EnsureResizedFramesDir,
            PipelineStage::CheckResizedDir { .. } => PipelineAction::CheckResizedFramesDirEmpty,
            PipelineStage::Resize { .. } => PipelineAction::RunResize,
            PipelineStage::ResolveResized { .. } => PipelineAction::ListResizedFramesDir,
        }
    }

    /// Whether an event answers this stage's action.
    pub open spec fn expects(&self, event: &PipelineEvent) -> bool {
        match (self, event) {
            (PipelineStage::CheckDownload, PipelineEvent::FileExists(_)) => true,
            (PipelineStage::Fetch, PipelineEvent::Fetched(_)) => true,
            (PipelineStage::Probe, PipelineEvent::Probed(_)) => true,
            (PipelineStage::PrepareRawDir { .. }, PipelineEvent::DirEnsured(_)) => true,
            (PipelineStage::CheckRawDir { .. }, PipelineEvent::DirChecked(_)) => true,
            (PipelineStage::Extract { .. }, PipelineEvent::ToolRan(_)) => true,
            (PipelineStage::ResolveRaw { .. }, PipelineEvent::Listed(_)) => true,
            (PipelineStage::PrepareResizedDir { .. }, PipelineEvent::DirEnsured(_)) => true,
            (PipelineStage::CheckResizedDir { .. }, PipelineEvent::DirChecked(_)) => true,
            (PipelineStage::Resize { .. }, PipelineEvent::ToolRan(_)) => true,
            (PipelineStage::ResolveResized { .. }, PipelineEvent::Listed(_)) => true,
            _ => false,
        }
    }

    /// Whether an event answers this stage's action, for callers outside
    /// the verifier to check before they step the machine.
    pub fn answers(&self, event: &PipelineEvent) -> (r: bool)
        ensures
            r == self.expects(event),
    {
        match (self, event) {
            (PipelineStage::CheckDownload, PipelineEvent::FileExists(_)) => true,
            (PipelineStage::Fetch, PipelineEvent::Fetched(_)) => true,
            (PipelineStage::Probe, PipelineEvent::Probed(_)) => true,
            (PipelineStage::PrepareRawDir { .. }, PipelineEvent::DirEnsured(_)) => true,
            (PipelineStage::CheckRawDir { .. }, PipelineEvent::DirChecked(_)) => true,
            (PipelineStage::Extract { .. }, PipelineEvent::ToolRan(_)) => true,
            (PipelineStage::ResolveRaw { .. }, PipelineEvent::Listed(_)) => true,
            (PipelineStage::PrepareResizedDir { .. }, PipelineEvent::DirEnsured(_)) => true,
            (PipelineStage::CheckResizedDir { .. }, PipelineEvent::DirChecked(_)) => true,
            (PipelineStage::Resize { .. }, PipelineEvent::ToolRan(_)) => true,
            (PipelineStage::ResolveResized { .. }, PipelineEvent::Listed(_)) => true,
            _ => false,
        }
    }
}

/// One emote's pipeline: its identity, the policy it is held to, and where
/// it stands.
#[derive(Debug)]
pub struct EmotePipeline {
    pub id: EmoteId,
    pub policy: StickerPolicy,
    pub stage: PipelineStage,
}

/// What one step of the pipeline decided.
#[derive(Debug)]
pub enum StepOutcome {
    /// The pipeline continues; perform the new stage's action next.
    Next(EmotePipeline),
    /// The whole preparation pipeline succeeded.
    Done(Emote),
    /// This emote's pipeline ended; the batch goes on without it.
    Failed(PipelineError),
}

impl EmotePipeline {
    /// What the machine guarantees of the data its stage carries: the
    /// descriptor passed parsing and the validity gate, and once the raw
    /// frames are resolved, their count agrees with an animated descriptor.
    pub open spec fn wf(self) -> bool {
        match self.stage {
            PipelineStage::CheckDownload => true,
            PipelineStage::Fetch => true,
            PipelineStage::Probe => true,
            PipelineStage::PrepareRawDir { info } => info.wf() && durations_valid(
                info,
                self.policy,
            ),
            PipelineStage::CheckRawDir { info } => info.wf() && durations_valid(info, self.policy),
            PipelineStage::Extract { info } => info.wf() && durations_valid(info, self.policy),
            PipelineStage::ResolveRaw { info } => info.wf() && durations_valid(info, self.policy),
            PipelineStage::PrepareResizedDir { info, raw } => info.wf() && durations_valid(
                info,
                self.policy,
            ) && (info.durations@.len() > 0 ==> raw.files@.len() == info.durations@.len()),
            PipelineStage::CheckResizedDir { info, raw } => info.wf() && durations_valid(
                info,
                self.policy,
            ) && (info.durations@.len() > 0 ==> raw.files@.len() == info.durations@.len()),
            PipelineStage::Resize { info, raw } => info.wf() && durations_valid(info, self.policy)
                && (info.durations@.len() > 0 ==> raw.files@.len() == info.durations@.len()),
            PipelineStage::ResolveResized { info, raw } => info.wf() && durations_valid(
                info,
                self.policy,
            ) && (info.durations@.len() > 0 ==> raw.files@.len() == info.durations@.len()),
        }
    }

    /// The same pipeline at another stage.
    pub open spec fn with_stage(self, stage: PipelineStage) -> EmotePipeline {
        EmotePipeline { id: self.id, policy: self.policy, stage }
    }

    /// A fresh pipeline at its first stage.
    pub fn new(id: EmoteId, policy: StickerPolicy) -> (r: EmotePipeline)
        ensures
            r.id == id,
            r.policy == policy,
            r.stage == PipelineStage::CheckDownload,
            r.wf(),
    {
        EmotePipeline { id, policy, stage: PipelineStage::CheckDownload }
    }
}

/// The outcome the probe stage owes for probe text `text`: a parse error
/// for unreadable text, a validation error for a non-compliant animation,
/// else the next stage carrying the parsed descriptor.
pub open spec fn probe_transition(m: EmotePipeline, text: Seq<char>, r: StepOutcome) -> bool {
    let ls = split_lines(text);
    let vals = duration_values(ls);
    let min = m.policy.min_frame_duration_ms as int;
    let max = m.policy.max_total_duration_ms as int;
    &&& (parse_rejects_missing(ls) ==> r == StepOutcome::Failed(
        PipelineError::Parse(ParseError::MissingCanvasSize),
    ))
    &&& (parse_rejects_overflow(ls) ==> r == StepOutcome::Failed(
        PipelineError::Parse(ParseError::NumberOverflow),
    ))
    &&& (parse_accepts(ls) ==> {
        if vals.len() > 0 && exists|k: int| 0 <= k < vals.len() && #[trigger] vals[k] < min {
            r == StepOutcome::Failed(PipelineError::Validation(ValidationError::TooShortFrames))
        } else if vals.len() > 0 && total_vals(vals) > max {
            r == StepOutcome::Failed(PipelineError::Validation(ValidationError::ExceedsMaxDuration))
        } else {
            match r {
                StepOutcome::Next(m2) => {
                    &&& m2.id == m.id
                    &&& m2.policy == m.policy
                    &&& match m2.stage {
                        PipelineStage::PrepareRawDir { info } => parsed_info(info, ls),
                        _ => false,
                    }
                },
                _ => false,
            }
        }
    })
}

/// The outcome the raw-frame resolution stage owes for the listing
/// `names` of directory `dir`: a sequence error, a frame-count mismatch
/// for an animation, else the next stage carrying the resolved sequence.
pub open spec fn resolve_raw_transition(
    m: EmotePipeline,
    info: WebpInfo,
    dir: Seq<char>,
    ns: Seq<Seq<char>>,
    r: StepOutcome,
) -> bool {
    match r {
        StepOutcome::Next(m2) => {
            &&& m2.id == m.id
            &&& m2.policy == m.policy
            &&& match m2.stage {
                PipelineStage::PrepareResizedDir { info: i2, raw } => {
                    &&& i2 == info
                    &&& resolve_ok(raw, dir, ns)
                    &&& (info.durations@.len() > 0 ==> raw.files@.len() == info.durations@.len())
                },
                _ => false,
            }
        },
        StepOutcome::Failed(PipelineError::Sequence(se)) => resolve_err(se, dir, ns),
        StepOutcome::Failed(PipelineError::FrameCountMismatch { resolved, expected }) => {
            &&& info.durations@.len() > 0
            &&& expected == info.durations@.len()
            &&& resolved == crate::file_sequence::matched_pairs(ns).len()
            &&& resolved != expected
            &&& crate::file_sequence::indices_fit(ns)
            &&& crate::file_sequence::has_match(ns)
            &&& crate::file_sequence::contiguous(ns)
        },
        _ => false,
    }
}

/// The outcome the resized-frame resolution stage owes: a sequence error,
/// or the finished `Emote` aggregate.
pub open spec fn resolve_resized_transition(
    m: EmotePipeline,
    info: WebpInfo,
    raw: FileSequence,
    dir: Seq<char>,
    ns: Seq<Seq<char>>,
    r: StepOutcome,
) -> bool {
    match r {
        StepOutcome::Done(e) => {
            &&& e.id == m.id
            &&& e.info == info
            &&& e.raw_frames == raw
            &&& resolve_ok(e.resized_frames, dir, ns)
        },
        StepOutcome::Failed(PipelineError::Sequence(se)) => resolve_err(se, dir, ns),
        _ => false,
    }
}

impl EmotePipeline {
    /// Advances the pipeline by one observed event. Download and resize
    /// mirror extraction's idempotent pattern: an existing download or a
    /// non-empty frame directory skips the tool and goes straight on, so a
    /// re-run never repeats finished work.
    #[verifier::rlimit(100)]
    pub fn step(self, event: PipelineEvent) -> (r: StepOutcome)
        requires
            self.wf(),
            self.stage.expects(&event),
        ensures
            (match r {
                StepOutcome::Next(m2) => m2.wf(),
                _ => true,
            }),
            (match self.stage {
                PipelineStage::CheckDownload => match event {
                    PipelineEvent::FileExists(b) => r == StepOutcome::Next(
                        self.with_stage(
                            if b {
                                PipelineStage::Probe
                            } else {
                                PipelineStage::Fetch
                            },
                        ),
                    ),
                    _ => true,
                },
                PipelineStage::Fetch => match event {
                    PipelineEvent::Fetched(res) => r == (match res {
                        Result::Ok(()) => StepOutcome::Next(self.with_stage(PipelineStage::Probe)),
                        Result::Err(msg) => StepOutcome::Failed(PipelineError::Fetch(msg)),
                    }),
                    _ => true,
                },
                PipelineStage::Probe => match event {
                    PipelineEvent::Probed(res) => match res {
                        Result::Ok(text) => probe_transition(self, text@, r),
                        Result::Err(ProbeFailure::Tool(tf)) => r == StepOutcome::Failed(
                            PipelineError::Tool(tf),
                        ),
                        Result::Err(ProbeFailure::NotText) => r == StepOutcome::Failed(
                            PipelineError::Decode,
                        ),
                    },
                    _ => true,
                },
                PipelineStage::PrepareRawDir { info } => match event {
                    PipelineEvent::DirEnsured(res) => r == (match res {
                        Result::Ok(()) => StepOutcome::Next(
                            self.with_stage(PipelineStage::CheckRawDir { info }),
                        ),
                        Result::Err(msg) => StepOutcome::Failed(PipelineError::Dir(msg)),
                    }),
                    _ => true,
                },
                PipelineStage::CheckRawDir { info } => match event {
                    PipelineEvent::DirChecked(res) => r == (match res {
                        Result::Ok(empty) => StepOutcome::Next(
                            self.with_stage(
                                if empty {
                                    PipelineStage::Extract { info }
                                } else {
                                    PipelineStage::ResolveRaw { info }
                                },
                            ),
                        ),
                        Result::Err(msg) => StepOutcome::Failed(PipelineError::Dir(msg)),
                    }),
                    _ => true,
                },
                PipelineStage::Extract { info } => match event {
                    PipelineEvent::ToolRan(res) => r == (match res {
                        Result::Ok(()) => StepOutcome::Next(
                            self.with_stage(PipelineStage::ResolveRaw { info }),
                        ),
                        Result::Err(tf) => StepOutcome::Failed(PipelineError::Tool(tf)),
                    }),
                    _ => true,
                },
                PipelineStage::ResolveRaw { info } => match event {
                    PipelineEvent::Listed(res) => match res {
                        Result::Ok(listing) => resolve_raw_transition(
                            self,
                            info,
                            listing.0@,
                            listing.1@.map_values(|n: String| n@),
                            r,
                        ),
                        Result::Err(msg) => r == StepOutcome::Failed(PipelineError::Dir(msg)),
                    },
                    _ => true,
                },
                PipelineStage::PrepareResizedDir { info, raw } => match event {
                    PipelineEvent::DirEnsured(res) => r == (match res {
                        Result::Ok(()) => StepOutcome::Next(
                            self.with_stage(PipelineStage::CheckResizedDir { info, raw }),
                        ),
                        Result::Err(msg) => StepOutcome::Failed(PipelineError::Dir(msg)),
                    }),
                    _ => true,
                },
                PipelineStage::CheckResizedDir { info, raw } => match event {
                    PipelineEvent::DirChecked(res) => r == (match res {
                        Result::Ok(empty) => StepOutcome::Next(
                            self.with_stage(
                                if empty {
                                    PipelineStage::Resize { info, raw }
                                } else {
                                    PipelineStage::ResolveResized { info, raw }
                                },
                            ),
                        ),
                        Result::Err(msg) => StepOutcome::Failed(PipelineError::Dir(msg)),
                    }),
                    _ => true,
                },
                PipelineStage::Resize { info, raw } => match event {
                    PipelineEvent::ToolRan(res) => r == (match res {
                        Result::Ok(()) => StepOutcome::Next(
                            self.with_stage(PipelineStage::ResolveResized { info, raw }),
                        ),
                        Result::Err(tf) => StepOutcome::Failed(PipelineError::Tool(tf)),
                    }),
                    _ => true,
                },
                PipelineStage::ResolveResized { info, raw } => match event {
                    PipelineEvent::Listed(res) => match res {
                        Result::Ok(listing) => resolve_resized_transition(
                            self,
                            info,
                            raw,
                            listing.0@,
                            listing.1@.map_values(|n: String| n@),
                            r,
                        ),
                        Result::Err(msg) => r == StepOutcome::Failed(PipelineError::Dir(msg)),
                    },
                    _ => true,
                },
            }),
    {
        let ghost this = self;
        let EmotePipeline { id, policy, stage } = self;
        match (stage, event) {
            (PipelineStage::CheckDownload, PipelineEvent::FileExists(b)) => {
                if b {
                    StepOutcome::Next(EmotePipeline { id, policy, stage: PipelineStage::Probe })
                } else {
                    StepOutcome::Next(EmotePipeline { id, policy, stage: PipelineStage::Fetch })
                }
            },
            (PipelineStage::Fetch, PipelineEvent::Fetched(res)) => match res {
                Result::Ok(()) => StepOutcome::Next(
                    EmotePipeline { id, policy, stage: PipelineStage::Probe },
                ),
                Result::Err(msg) => StepOutcome::Failed(PipelineError::Fetch(msg)),
            },
            (PipelineStage::Probe, PipelineEvent::Probed(res)) => match res {
                Result::Ok(text) => {
                    let ghost ls = split_lines(text@);
                    match WebpInfo::from_stdout(text.as_str()) {
                        Result::Err(pe) => StepOutcome::Failed(PipelineError::Parse(pe)),
                        Result::Ok(info) => {
                            let ghost vals = duration_values(ls);
                            proof {
                                assert(info.durations@.map_values(|d: i32| d as nat) == vals);
                                lemma_total_map(info.durations@, vals);
                            }
                            match validate_durations(
                                &info,
                                policy.min_frame_duration_ms,
                                policy.max_total_duration_ms,
                            ) {
                                Result::Err(ve) => {
                                    proof {
                                        let d = info.durations@;
                                        let min = policy.min_frame_duration_ms as int;
                                        assert forall|k: int|
                                            0 <= k < d.len() implies #[trigger] vals[k] == d[k]
                                            as nat by {
                                            assert(d.map_values(|x: i32| x as nat)[k] == d[k]
                                                as nat);
                                        }
                                        match ve {
                                            ValidationError::TooShortFrames => {
                                                let k0 = choose|k: int|
                                                    0 <= k < d.len() && #[trigger] d[k] < min;
                                                assert(0 <= k0 < vals.len() && vals[k0] < min);
                                            },
                                            ValidationError::ExceedsMaxDuration => {
                                                assert forall|k: int|
                                                    0 <= k < vals.len() implies !(
                                                #[trigger] vals[k] < min) by {
                                                    assert(d[k] >= min);
                                                }
                                            },
                                        }
                                    }
                                    StepOutcome::Failed(PipelineError::Validation(ve))
                                },
                                Result::Ok(()) => {
                                    proof {
                                        let d = info.durations@;
                                        let min = policy.min_frame_duration_ms as int;
                                        assert forall|k: int|
                                            0 <= k < d.len() implies #[trigger] vals[k] == d[k]
                                            as nat by {
                                            assert(d.map_values(|x: i32| x as nat)[k] == d[k]
                                                as nat);
                                        }
                                        if d.len() > 0 {
                                            assert forall|k: int|
                                                0 <= k < vals.len() implies !(#[trigger] vals[k]
                                                < min) by {
                                                assert(d[k] >= min);
                                            }
                                        }
                                    }
                                    StepOutcome::Next(
                                        EmotePipeline {
                                            id,
                                            policy,
                                            stage: PipelineStage::PrepareRawDir { info },
                                        },
                                    )
                                },
                            }
                        },
                    }
                },
                Result::Err(ProbeFailure::Tool(tf)) => StepOutcome::Failed(
                    PipelineError::Tool(tf),
                ),
                Result::Err(ProbeFailure::NotText) => StepOutcome::Failed(PipelineError::Decode),
            },
            (PipelineStage::PrepareRawDir { info }, PipelineEvent::DirEnsured(res)) => match res {
                Result::Ok(()) => StepOutcome::Next(
                    EmotePipeline { id, policy, stage: PipelineStage::CheckRawDir { info } },
                ),
                Result::Err(msg) => StepOutcome::Failed(PipelineError::Dir(msg)),
            },
            (PipelineStage::CheckRawDir { info }, PipelineEvent::DirChecked(res)) => match res {
                Result::Ok(empty) => {
                    if empty {
                        StepOutcome::Next(
                            EmotePipeline { id, policy, stage: PipelineStage::Extract { info } },
                        )
                    } else {
                        StepOutcome::Next(
                            EmotePipeline {
                                id,
                                policy,
                                stage: PipelineStage::ResolveRaw { info },
                            },
                        )
                    }
                },
                Result::Err(msg) => StepOutcome::Failed(PipelineError::Dir(msg)),
            },
            (PipelineStage::Extract { info }, PipelineEvent::ToolRan(res)) => match res {
                Result::Ok(()) => StepOutcome::Next(
                    EmotePipeline { id, policy, stage: PipelineStage::ResolveRaw { info } },
                ),
                Result::Err(tf) => StepOutcome::Failed(PipelineError::Tool(tf)),
            },
            (PipelineStage::ResolveRaw { info }, PipelineEvent::Listed(res)) => match res {
                Result::Ok(listing) => {
                    let (dir, names) = listing;
                    match file_sequence_from_names(dir, &names) {
                        Result::Err(se) => StepOutcome::Failed(PipelineError::Sequence(se)),
                        Result::Ok(raw) => {
                            let resolved = raw.files.len();
                            let expected = info.durations.len();
                            proof {
                                broadcast use vstd::seq_lib::group_to_multiset_ensures;

                                let ghost f = |e: crate::file_sequence::SequenceElement|
                                    pair_of(e);
                                let ghost ns = names@.map_values(|n: String| n@);
                                assert(raw.files@.map_values(f).len() == raw.files@.len());
                                assert(raw.files@.map_values(f).to_multiset().len()
                                    == raw.files@.map_values(f).len());
                                assert(crate::file_sequence::matched_pairs(ns).to_multiset().len()
                                    == crate::file_sequence::matched_pairs(ns).len());
                                assert(raw.files@.len() == crate::file_sequence::matched_pairs(
                                    ns,
                                ).len());
                            }
                            if expected > 0 && resolved != expected {
                                StepOutcome::Failed(
                                    PipelineError::FrameCountMismatch { resolved, expected },
                                )
                            } else {
                                StepOutcome::Next(
                                    EmotePipeline {
                                        id,
                                        policy,
                                        stage: PipelineStage::PrepareResizedDir { info, raw },
                                    },
                                )
                            }
                        },
                    }
                },
                Result::Err(msg) => StepOutcome::Failed(PipelineError::Dir(msg)),
            },
            (PipelineStage::PrepareResizedDir { info, raw }, PipelineEvent::DirEnsured(res)) => {
                match res {
                    Result::Ok(()) => StepOutcome::Next(
                        EmotePipeline {
                            id,
                            policy,
                            stage: PipelineStage::CheckResizedDir { info, raw },
                        },
                    ),
                    Result::Err(msg) => StepOutcome::Failed(PipelineError::Dir(msg)),
                }
            },
            (PipelineStage::CheckResizedDir { info, raw }, PipelineEvent::DirChecked(res)) => {
                match res {
                    Result::Ok(empty) => {
                        if empty {
                            StepOutcome::Next(
                                EmotePipeline {
                                    id,
                                    policy,
                                    stage: PipelineStage::Resize { info, raw },
                                },
                            )
                        } else {
                            StepOutcome::Next(
                                EmotePipeline {
                                    id,
                                    policy,
                                    stage: PipelineStage::ResolveResized { info, raw },
                                },
                            )
                        }
                    },
                    Result::Err(msg) => StepOutcome::Failed(PipelineError::Dir(msg)),
                }
            },
            (PipelineStage::Resize { info, raw }, PipelineEvent::ToolRan(res)) => match res {
                Result::Ok(()) => StepOutcome::Next(
                    EmotePipeline {
                        id,
                        policy,
                        stage: PipelineStage::ResolveResized { info, raw },
                    },
                ),
                Result::Err(tf) => StepOutcome::Failed(PipelineError::Tool(tf)),
            },
            (PipelineStage::ResolveResized { info, raw }, PipelineEvent::Listed(res)) => {
                match res {
                    Result::Ok(listing) => {
                        let (dir, names) = listing;
                        match file_sequence_from_names(dir, &names) {
                            Result::Err(se) => StepOutcome::Failed(PipelineError::Sequence(se)),
                            Result::Ok(resized) => StepOutcome::Done(
                                Emote { id, info, raw_frames: raw, resized_frames: resized },
                            ),
                        }
                    },
                    Result::Err(msg) => StepOutcome::Failed(PipelineError::Dir(msg)),
                }
            },
            _ => vstd::pervasive::unreached(),
        }
    }
}

/// One (quality, compression-method) pair of the degrading-quality retry
/// loop.
#[derive(Debug, Clone, Copy, PartialEq, Eq, Structural)]
pub struct Preset {
    pub quality: i32,
    pub level: i32,
}

/// The fixed preset ladder, from highest quality to most aggressive.
pub open spec fn spec_preset(i: int) -> Preset {
    if i == 0 {
        (Preset { quality: 75, level: 4 })
    } else if i == 1 {
        (Preset { quality: 50, level: 4 })
    } else if i == 2 {
        (Preset { quality: 25, level: 4 })
    } else if i == 3 {
        (Preset { quality: 10, level: 4 })
    } else {
        (Preset { quality: 10, level: 6 })
    }
}

/// The preset tried in attempt `i`.
pub fn quality_preset(i: usize) -> (r: Preset)
    requires
        i < QUALITY_PRESET_COUNT,
    ensures
        r == spec_preset(i as int),
{
    if i == 0 {
        Preset { quality: 75, level: 4 }
    } else if i == 1 {
        Preset { quality: 50, level: 4 }
    } else if i == 2 {
        Preset { quality: 25, level: 4 }
    } else if i == 3 {
        Preset { quality: 10, level: 4 }
    } else {
        Preset { quality: 10, level: 6 }
    }
}

/// Frames paired positionally with durations, carrying the given preset:
/// frame `i` shows resized file `i` for duration `i`. The pairing stops at
/// the shorter of the two lists; the frame-count cross-check makes them
/// equal for a validated animation.
pub open spec fn frames_built(
    fr: Seq<Img2WebpFrame>,
    resized: FileSequence,
    durations: Seq<i32>,
    p: Preset,
) -> bool {
    &&& fr.len() == (if resized.files@.len() <= durations.len() {
        resized.files@.len()
    } else {
        durations.len()
    })
    &&& forall|i: int|
        0 <= i < fr.len() ==> (#[trigger] fr[i]).path@ == path_join(
            resized.dir@,
            resized.files@[i].file_name@,
        ) && fr[i].duration == durations[i] && fr[i].compression_quality == p.quality
            && fr[i].compression_method == p.level
}

/// Builds one encode row per resized frame, zipped positionally against
/// the durations, with the given preset's quality and method.
pub fn make_frames(resized: &FileSequence, durations: &Vec<i32>, p: Preset) -> (r: Vec<
    Img2WebpFrame,
>)
    ensures
        frames_built(r@, *resized, durations@, p),
{
    let n = if resized.files.len() <= durations.len() {
        resized.files.len()
    } else {
        durations.len()
    };
    let mut fr: Vec<Img2WebpFrame> = Vec::new();
    let mut i: usize = 0;
    while i < n
        invariant
            i <= n,
            n == (if resized.files@.len() <= durations@.len() {
                resized.files@.len()
            } else {
                durations@.len()
            }),
            fr@.len() == i,
            forall|j: int|
                0 <= j < i ==> (#[trigger] fr@[j]).path@ == path_join(
                    resized.dir@,
                    resized.files@[j].file_name@,
                ) && fr@[j].duration == durations@[j] && fr@[j].compression_quality == p.quality
                    && fr@[j].compression_method == p.level,
        decreases n - i,
    {
        let path = crate::text::join_path(&resized.dir, &resized.files[i].file_name);
        fr.push(Img2WebpFrame::new(path, durations[i], p.quality, p.level));
        i = i + 1;
    }
    fr
}

/// The same frames under another preset: paths and durations kept, quality
/// and method overwritten.
pub fn alter_frames(frames: &mut Vec<Img2WebpFrame>, p: Preset)
    ensures
        final(frames)@.len() == old(frames)@.len(),
        forall|i: int|
            #![trigger final(frames)@[i]]
            0 <= i < old(frames)@.len() ==> final(frames)@[i].path@ == old(frames)@[i].path@
                && final(frames)@[i].duration == old(frames)@[i].duration
                && final(frames)@[i].compression_quality == p.quality
                && final(frames)@[i].compression_method == p.level,
{
    let mut i: usize = 0;
    while i < frames.len()
        invariant
            i <= frames@.len(),
            frames@.len() == old(frames)@.len(),
            forall|j: int|
                i <= j < frames@.len() ==> (#[trigger] frames@[j]).path@ == old(
                    frames,
                )@[j].path@ && frames@[j].duration == old(frames)@[j].duration,
            forall|j: int|
                0 <= j < i ==> (#[trigger] frames@[j]).path@ == old(frames)@[j].path@ && frames@[
                    j
                ].duration == old(frames)@[j].duration && frames@[j].compression_quality
                    == p.quality && frames@[j].compression_method == p.level,
        decreases frames@.len() - i,
    {
        let path = frames[i].path.clone();
        let duration = frames[i].duration;
        frames.set(i, Img2WebpFrame::new(path, duration, p.quality, p.level));
        i = i + 1;
    }
}

/// Where the encode step of one emote stands.
#[derive(Debug)]
pub enum EncodeStage {
    /// Convert the single resized frame into a static sticker.
    EncodeStatic,
    /// Run the multi-frame encoder with the current attempt's preset.
    EncodeAnimated { frames: Vec<Img2WebpFrame>, attempt: usize },
    /// Measure the byte size the current attempt produced.
    MeasureOutput { frames: Vec<Img2WebpFrame>, attempt: usize },
}

/// The one outside effect the caller must perform for the current stage.
#[derive(Debug, Clone, Copy, PartialEq, Eq, Structural)]
pub enum EncodeAction {
    /// Run the static converter on the single resized frame.
    RunEncodeStatic,
    /// Run the multi-frame encoder with the current frames.
    RunEncodeAnimated,
    /// Report the output file's size in bytes.
    MeasureOutputSize,
}

/// What the caller observed while performing the requested action.
#[derive(Debug)]
pub enum EncodeEvent {
    /// The encoder finished.
    ToolRan(Result<(), ToolFailure>),
    /// The output file's size, or why it could not be measured.
    Measured(Result<u64, String>),
}

impl EncodeStage {
    /// The action whose result this stage waits for.
    pub open spec fn spec_action(&self) -> EncodeAction {
        match self {
            EncodeStage::EncodeStatic => EncodeAction::RunEncodeStatic,
            EncodeStage::EncodeAnimated { .. } => EncodeAction::RunEncodeAnimated,
            EncodeStage::MeasureOutput { .. } => EncodeAction::MeasureOutputSize,
        }
    }

    /// The action whose result this stage waits for.
    pub fn action(&self) -> (r: EncodeAction)
        ensures
            r == self.spec_action(),
    {
        match self {
            EncodeStage::EncodeStatic => EncodeAction::RunEncodeStatic,
            EncodeStage::EncodeAnimated { .. } => EncodeAction::RunEncodeAnimated,
            EncodeStage::MeasureOutput { .. } => EncodeAction::MeasureOutputSize,
        }
    }

    /// Whether an event answers this stage's action.
    pub open spec fn expects(&self, event: &EncodeEvent) -> bool {
        match (self, event) {
            (EncodeStage::EncodeStatic, EncodeEvent::ToolRan(_)) => true,
            (EncodeStage::EncodeAnimated { .. }, EncodeEvent::ToolRan(_)) => true,
            (EncodeStage::MeasureOutput { .. }, EncodeEvent::Measured(_)) => true,
            _ => false,
        }
    }

    /// Whether an event answers this stage's action, for callers outside
    /// the verifier to check before they step the encoder.
    pub fn answers(&self, event: &EncodeEvent) -> (r: bool)
        ensures
            r == self.expects(event),
    {
        match (self, event) {
            (EncodeStage::EncodeStatic, EncodeEvent::ToolRan(_)) => true,
            (EncodeStage::EncodeAnimated { .. }, EncodeEvent::ToolRan(_)) => true,
            (EncodeStage::MeasureOutput { .. }, EncodeEvent::Measured(_)) => true,
            _ => false,
        }
    }
}

/// The encode step of one emote: the degrading-quality retry loop of the
/// animated path, or the single static conversion.
#[derive(Debug)]
pub struct StickerEncoder {
    pub policy: StickerPolicy,
    pub stage: EncodeStage,
}

/// What one step of the encoder decided.
#[derive(Debug)]
pub enum EncodeOutcome {
    /// The encoding continues; perform the new stage's action next.
    Next(StickerEncoder),
    /// The sticker is written and fits the ceiling.
    Done,
    /// Encoding failed; for `SizeLimitExceeded` the last, smallest attempt
    /// is deliberately left on disk as a best-effort artifact.
    Failed(PipelineError),
}

impl StickerEncoder {
    /// The attempt counter stays within the preset ladder.
    pub open spec fn wf(self) -> bool {
        match self.stage {
            EncodeStage::EncodeStatic => true,
            EncodeStage::EncodeAnimated { attempt, .. } => attempt < QUALITY_PRESET_COUNT,
            EncodeStage::MeasureOutput { attempt, .. } => attempt < QUALITY_PRESET_COUNT,
        }
    }

    /// Starts the encode step for a prepared emote: the static path for a
    /// static image, else the animated path at the first preset, its
    /// frames zipped positionally against the descriptor's durations.
    pub fn new(emote: &Emote, policy: StickerPolicy) -> (r: StickerEncoder)
        ensures
            r.policy == policy,
            r.wf(),
            emote.info.durations@.len() == 0 ==> r.stage == EncodeStage::EncodeStatic,
            emote.info.durations@.len() > 0 ==> match r.stage {
                EncodeStage::EncodeAnimated { frames, attempt } => attempt == 0 && frames_built(
                    frames@,
                    emote.resized_frames,
                    emote.info.durations@,
                    spec_preset(0),
                ),
                _ => false,
            },
    {
        if emote.info.durations.len() == 0 {
            StickerEncoder { policy, stage: EncodeStage::EncodeStatic }
        } else {
            let frames = make_frames(&emote.resized_frames, &emote.info.durations,
                quality_preset(0));
            StickerEncoder { policy, stage: EncodeStage::EncodeAnimated { frames, attempt: 0 } }
        }
    }

    /// Advances the encoder by one observed event. An attempt whose output
    /// fits the ceiling is accepted on the spot; an oversized one moves to
    /// the next preset, and after the last preset the emote is reported
    /// oversized.
    pub fn step(self, event: EncodeEvent) -> (r: EncodeOutcome)
        requires
            self.wf(),
            self.stage.expects(&event),
        ensures
            (match r {
                EncodeOutcome::Next(m2) => m2.wf() && m2.policy == self.policy,
                _ => true,
            }),
            (match self.stage {
                EncodeStage::EncodeStatic => match event {
                    EncodeEvent::ToolRan(res) => r == (match res {
                        Result::Ok(()) => EncodeOutcome::Done,
                        Result::Err(tf) => EncodeOutcome::Failed(PipelineError::Tool(tf)),
                    }),
                    _ => true,
                },
                EncodeStage::EncodeAnimated { frames, attempt } => match event {
                    EncodeEvent::ToolRan(res) => match res {
                        Result::Ok(()) => match r {
                            EncodeOutcome::Next(m2) => m2.stage == (EncodeStage::MeasureOutput {
                                frames,
                                attempt,
                            }),
                            _ => false,
                        },
                        Result::Err(tf) => r == EncodeOutcome::Failed(PipelineError::Tool(tf)),
                    },
                    _ => true,
                },
                EncodeStage::MeasureOutput { frames, attempt } => match event {
                    EncodeEvent::Measured(res) => match res {
                        Result::Ok(size) => {
                            if size <= self.policy.animated_size_limit {
                                r == EncodeOutcome::Done
                            } else if attempt + 1 < QUALITY_PRESET_COUNT {
                                match r {
                                    EncodeOutcome::Next(m2) => match m2.stage {
                                        EncodeStage::EncodeAnimated {
                                            frames: f2,
                                            attempt: a2,
                                        } => {
                                            &&& a2 == attempt + 1
                                            &&& f2@.len() == frames@.len()
                                            &&& forall|i: int|
                                                0 <= i < frames@.len() ==> (#[trigger] f2@[
                                                    i
                                                ]).path@ == frames@[i].path@ && f2@[i].duration
                                                    == frames@[i].duration && f2@[
                                                    i
                                                ].compression_quality == spec_preset(
                                                    attempt + 1,
                                                ).quality && f2@[i].compression_method
                                                    == spec_preset(attempt + 1).level
                                        },
                                        _ => false,
                                    },
                                    _ => false,
                                }
                            } else {
                                r == EncodeOutcome::Failed(PipelineError::SizeLimitExceeded)
                            }
                        },
                        Result::Err(msg) => r == EncodeOutcome::Failed(PipelineError::Dir(msg)),
                    },
                    _ => true,
                },
            }),
    {
        let StickerEncoder { policy, stage } = self;
        match (stage, event) {
            (EncodeStage::EncodeStatic, EncodeEvent::ToolRan(res)) => match res {
                Result::Ok(()) => EncodeOutcome::Done,
                Result::Err(tf) => EncodeOutcome::Failed(PipelineError::Tool(tf)),
            },
            (EncodeStage::EncodeAnimated { frames, attempt }, EncodeEvent::ToolRan(res)) => {
                match res {
                    Result::Ok(()) => EncodeOutcome::Next(
                        StickerEncoder {
                            policy,
                            stage: EncodeStage::MeasureOutput { frames, attempt },
                        },
                    ),
                    Result::Err(tf) => EncodeOutcome::Failed(PipelineError::Tool(tf)),
                }
            },
            (EncodeStage::MeasureOutput { frames, attempt }, EncodeEvent::Measured(res)) => {
                match res {
                    Result::Ok(size) => {
                        if size <= policy.animated_size_limit {
                            EncodeOutcome::Done
                        } else if attempt + 1 < QUALITY_PRESET_COUNT {
                            let mut frames = frames;
                            let next = attempt + 1;
                            alter_frames(&mut frames, quality_preset(next));
                            EncodeOutcome::Next(
                                StickerEncoder {
                                    policy,
                                    stage: EncodeStage::EncodeAnimated { frames, attempt: next },
                                },
                            )
                        } else {
                            EncodeOutcome::Failed(PipelineError::SizeLimitExceeded)
                        }
                    },
                    Result::Err(msg) => EncodeOutcome::Failed(PipelineError::Dir(msg)),
                }
            },
            _ => vstd::pervasive::unreached(),
        }
    }
}


} // verus!
