//! Per-camera pipeline planning and the failure-isolation policy.
//!
//! For each named camera the builder fixes an ordered chain of transform
//! stages (rate limit, color handling, mount rotation, optional compression)
//! ending in one of two feeds, and folds the framework's answer at each
//! construction step into a single outcome: a started pipeline with its
//! handle, or an abandoned one naming the first step that failed. Outcomes
//! are computed strictly per camera, so no failure in one pipeline can touch
//! another.

use vstd::prelude::*;

use crate::locate::{CameraIntrinsics, TagFamily};

verus! {

/// Physical mounting orientation of a camera, corrected by a fixed rotation
/// stage.
#[derive(Clone, Copy, Debug, PartialEq, Eq, Structural)]
pub enum Rotation {
    Upright,
    Clockwise90,
    Clockwise180,
    Counter90,
}

/// What the camera source delivers: compressed frames that must be
/// unpacked, or raw frames that only need a format conversion.
#[derive(Clone, Copy, Debug, PartialEq, Eq, Structural)]
pub enum SourceFormat {
    /// Motion-JPEG: compressed, unpacked to the target pixel format.
    Mjpg,
    /// Already raw: converted to the target pixel format.
    Rgb,
}

/// A bound on how fast frames are taken from a source.
#[derive(Clone, Copy, Debug, PartialEq, Eq, Structural)]
pub enum RateLimit {
    /// A hard minimum duration between consecutive frames.
    IntervalMillis { millis: u64 },
    /// A target number of frames per second.
    TargetFps { fps: u64 },
}

/// Chroma subsampling mode of the compression stage.
#[derive(Clone, Copy, Debug, PartialEq, Eq, Structural)]
pub enum ChromaSubsampling {
    Full,
    Sub1x2,
    Sub1x4,
}

/// Fixed settings of the compression stage of a raw-stream pipeline.
#[derive(Clone, Copy, Debug, PartialEq, Eq, Structural)]
pub struct Compression {
    pub quality: u8,
    pub subsamp: ChromaSubsampling,
}

/// The terminal role of a pipeline: publish compressed frames, or publish
/// marker locations solved with the given calibration.
#[derive(Debug)]
pub enum Role {
    FrameFeed { compression: Compression },
    LocationFeed { families: Vec<TagFamily>, intrinsics: CameraIntrinsics, tag_size: u64 },
}

/// The kind of feed a started pipeline publishes.
#[derive(Clone, Copy, Debug, PartialEq, Eq, Structural)]
pub enum FeedKind {
    Frames,
    Locations,
}

/// The feed kind a role publishes.
pub open spec fn spec_feed_of_role(role: Role) -> FeedKind {
    match role {
        Role::FrameFeed { .. } => FeedKind::Frames,
        Role::LocationFeed { .. } => FeedKind::Locations,
    }
}

/// Source-acquisition settings shared by every camera: capture resolution,
/// connection timeout and the path of the camera-server binary the capture
/// framework spawns. Handed through to the framework unchanged.
#[derive(Debug)]
pub struct CaptureSettings {
    pub width: u32,
    pub height: u32,
    pub connect_timeout_millis: u64,
    pub server_exe: String,
}

/// Everything that configures one camera's pipeline. Supplied externally at
/// startup — the core embeds no calibration or port literals.
#[derive(Debug)]
pub struct PipelineConfig {
    /// Name under which the source is acquired from the capture framework.
    pub camera: String,
    /// Fixed network port the terminal feed publishes on.
    pub port: u16,
    /// Optional frame-rate bound, inserted first when present.
    pub rate: Option<RateLimit>,
    /// What the source delivers, deciding the color-handling stage.
    pub source_format: SourceFormat,
    /// Mounting correction, a per-camera constant.
    pub rotation: Rotation,
    /// Terminal role of the pipeline.
    pub role: Role,
}

/// One stage of a pipeline's transform chain, in the order it runs.
#[derive(Clone, Copy, Debug, PartialEq, Eq, Structural)]
pub enum Stage {
    RateLimit { limit: RateLimit },
    /// Unpack a compressed source into the target pixel format.
    Unpack,
    /// Convert an already-raw source into the target pixel format.
    Convert,
    Rotate { rotation: Rotation },
    Compress { compression: Compression },
}

/// The color-handling stage a source format requires: exactly one of
/// unpacking or conversion.
pub open spec fn spec_color_stage(format: SourceFormat) -> Stage {
    match format {
        SourceFormat::Mjpg => Stage::Unpack,
        SourceFormat::Rgb => Stage::Convert,
    }
}

/// The ordered transform chain of a configured pipeline: rate limit when
/// configured, then the color stage, then the rotation correction, then —
/// for a frame feed only — the compression stage.
pub open spec fn spec_stage_plan(cfg: PipelineConfig) -> Seq<Stage> {
    let head: Seq<Stage> = match cfg.rate {
        Some(limit) => seq![Stage::RateLimit { limit }],
        None => Seq::empty(),
    };
    let tail: Seq<Stage> = match cfg.role {
        Role::FrameFeed { compression } => seq![Stage::Compress { compression }],
        Role::LocationFeed { .. } => Seq::empty(),
    };
    head + seq![spec_color_stage(cfg.source_format), Stage::Rotate { rotation: cfg.rotation }]
        + tail
}

/// Lay out the transform chain for one configured pipeline.
pub fn plan_stages(cfg: &PipelineConfig) -> (stages: Vec<Stage>)
    ensures
        stages@ == spec_stage_plan(*cfg),
{
    let mut stages: Vec<Stage> = Vec::new();
    match cfg.rate {
        Some(limit) => {
            stages.push(Stage::RateLimit { limit });
        },
        None => {},
    }
    match cfg.source_format {
        SourceFormat::Mjpg => {
            stages.push(Stage::Unpack);
        },
        SourceFormat::Rgb => {
            stages.push(Stage::Convert);
        },
    }
    stages.push(Stage::Rotate { rotation: cfg.rotation });
    match &cfg.role {
        Role::FrameFeed { compression } => {
            stages.push(Stage::Compress { compression: *compression });
        },
        Role::LocationFeed { .. } => {},
    }
    proof {
        assert(stages@ =~= spec_stage_plan(*cfg));
    }
    stages
}

/// A color-handling stage: unpacking or conversion.
pub open spec fn spec_is_color_stage(s: Stage) -> bool {
    s is Unpack || s is Convert
}

/// Law: every planned chain holds exactly one color-handling stage, the one
/// its source format requires.
pub proof fn lemma_exactly_one_color_stage(cfg: PipelineConfig)
    ensures
        exists|i: int|
            0 <= i < spec_stage_plan(cfg).len() && spec_is_color_stage(
                #[trigger] spec_stage_plan(cfg)[i],
            ) && spec_stage_plan(cfg)[i] == spec_color_stage(cfg.source_format),
        forall|i: int, j: int|
            0 <= i < spec_stage_plan(cfg).len() && 0 <= j < spec_stage_plan(cfg).len()
                && spec_is_color_stage(#[trigger] spec_stage_plan(cfg)[i]) && spec_is_color_stage(
                #[trigger] spec_stage_plan(cfg)[j],
            ) ==> i == j,
{
    let plan = spec_stage_plan(cfg);
    let k: int = if cfg.rate is Some {
        1
    } else {
        0
    };
    assert(plan[k] == spec_color_stage(cfg.source_format));
    assert(forall|i: int|
        0 <= i < plan.len() && i != k ==> !spec_is_color_stage(#[trigger] plan[i]));
}

/// A construction step at which a pipeline can fail. Only a frame-feed
/// pipeline has a compressor to initialize.
#[derive(Clone, Copy, Debug, PartialEq, Eq, Structural)]
pub enum BuildStep {
    /// Acquiring the named camera source.
    Acquire,
    /// Creating the compression stage's compressor.
    CompressorInit,
    /// Starting the assembled transform chain.
    Start,
    /// Launching the terminal publisher on its port.
    Launch,
}

/// What the framework answered at each construction step of one pipeline.
/// Steps after the first failed one are never attempted; their entries are
/// ignored by the outcome.
#[derive(Clone, Copy, Debug, PartialEq, Eq, Structural)]
pub struct StepResults {
    pub acquire_ok: bool,
    pub compressor_ok: bool,
    pub start_ok: bool,
    pub launch_ok: bool,
}

impl StepResults {
    /// Every step answered with success.
    pub open spec fn all_ok(self) -> bool {
        self.acquire_ok && self.compressor_ok && self.start_ok && self.launch_ok
    }
}

/// Whether the pipeline's chain contains a compressor to initialize.
pub open spec fn spec_needs_compressor(cfg: PipelineConfig) -> bool {
    cfg.role is FrameFeed
}

/// The handle of a started pipeline, kept for shutdown: which configured
/// camera it came from, the port it publishes on and the kind of feed.
#[derive(Clone, Copy, Debug, PartialEq, Eq, Structural)]
pub struct PipelineHandle {
    /// Index of this pipeline's entry in the configured set.
    pub config_index: usize,
    pub port: u16,
    pub feed: FeedKind,
}

/// The all-or-nothing outcome of one pipeline's construction: either every
/// step succeeded and the pipeline runs, or it was abandoned at the first
/// failed step and contributes nothing.
#[derive(Clone, Copy, Debug, PartialEq, Eq, Structural)]
pub enum PipelineOutcome {
    Started { handle: PipelineHandle },
    Abandoned { step: BuildStep },
}

/// The outcome of one pipeline, short-circuiting on the first failed step:
/// source acquisition, then — for a frame feed — compressor creation, then
/// chain start, then publisher launch.
pub open spec fn spec_build_outcome(
    cfg: PipelineConfig,
    index: usize,
    steps: StepResults,
) -> PipelineOutcome {
    if !steps.acquire_ok {
        PipelineOutcome::Abandoned { step: BuildStep::Acquire }
    } else if spec_needs_compressor(cfg) && !steps.compressor_ok {
        PipelineOutcome::Abandoned { step: BuildStep::CompressorInit }
    } else if !steps.start_ok {
        PipelineOutcome::Abandoned { step: BuildStep::Start }
    } else if !steps.launch_ok {
        PipelineOutcome::Abandoned { step: BuildStep::Launch }
    } else {
        PipelineOutcome::Started {
            handle: PipelineHandle {
                config_index: index,
                port: cfg.port,
                feed: spec_feed_of_role(cfg.role),
            },
        }
    }
}

/// Fold the framework's step answers for one pipeline into its outcome.
pub fn build_pipeline(cfg: &PipelineConfig, index: usize, steps: &StepResults) -> (out:
    PipelineOutcome)
    ensures
        out == spec_build_outcome(*cfg, index, *steps),
        out is Started <==> steps.acquire_ok && (spec_needs_compressor(*cfg)
            ==> steps.compressor_ok) && steps.start_ok && steps.launch_ok,
{
    if !steps.acquire_ok {
        return PipelineOutcome::Abandoned { step: BuildStep::Acquire };
    }
    let needs_compressor = match &cfg.role {
        Role::FrameFeed { .. } => true,
        Role::LocationFeed { .. } => false,
    };
    if needs_compressor && !steps.compressor_ok {
        return PipelineOutcome::Abandoned { step: BuildStep::CompressorInit };
    }
    if !steps.start_ok {
        return PipelineOutcome::Abandoned { step: BuildStep::Start };
    }
    if !steps.launch_ok {
        return PipelineOutcome::Abandoned { step: BuildStep::Launch };
    }
    let feed = match &cfg.role {
        Role::FrameFeed { .. } => FeedKind::Frames,
        Role::LocationFeed { .. } => FeedKind::Locations,
    };
    PipelineOutcome::Started {
        handle: PipelineHandle { config_index: index, port: cfg.port, feed },
    }
}

/// The outcomes of a whole configured set, each computed from its own
/// config and its own step answers alone.
pub open spec fn spec_build_all(
    cfgs: Seq<PipelineConfig>,
    steps: Seq<StepResults>,
) -> Seq<PipelineOutcome> {
    Seq::new(cfgs.len(), |i: int| spec_build_outcome(cfgs[i], i as usize, steps[i]))
}

/// Attempt every configured pipeline, strictly independently and in the
/// configured order.
pub fn build_all(cfgs: &Vec<PipelineConfig>, steps: &Vec<StepResults>) -> (outs: Vec<
    PipelineOutcome,
>)
    requires
        cfgs@.len() == steps@.len(),
    ensures
        outs@ == spec_build_all(cfgs@, steps@),
        outs@.len() == cfgs@.len(),
        forall|i: int|
            0 <= i < cfgs@.len() ==> outs@[i] == spec_build_outcome(
                cfgs@[i],
                i as usize,
                steps@[i],
            ),
{
    let n = cfgs.len();
    let mut outs: Vec<PipelineOutcome> = Vec::new();
    let mut i: usize = 0;
    while i < n
        invariant
            n == cfgs@.len(),
            n == steps@.len(),
            i <= n,
            outs@.len() == i,
            forall|k: int|
                0 <= k < i ==> outs@[k] == spec_build_outcome(cfgs@[k], k as usize, steps@[k]),
        decreases n - i,
    {
        let out = build_pipeline(&cfgs[i], i, &steps[i]);
        outs.push(out);
        i += 1;
    }
    proof {
        assert(outs@ =~= spec_build_all(cfgs@, steps@));
    }
    outs
}

/// Law: failure isolation. The outcome of pipeline `i` is untouched by a
/// change of any other pipeline's step answers: two runs whose answers
/// agree at `i` — however they differ elsewhere — give `i` the same outcome.
pub proof fn lemma_failure_isolation(
    cfgs: Seq<PipelineConfig>,
    steps_a: Seq<StepResults>,
    steps_b: Seq<StepResults>,
    i: int,
)
    requires
        steps_a.len() == cfgs.len(),
        steps_b.len() == cfgs.len(),
        0 <= i < cfgs.len(),
        steps_a[i] == steps_b[i],
    ensures
        spec_build_all(cfgs, steps_a)[i] == spec_build_all(cfgs, steps_b)[i],
{
}

/// Law: a pipeline whose own steps all succeed starts, whatever became of
/// every other pipeline.
pub proof fn lemma_clean_pipeline_starts(
    cfgs: Seq<PipelineConfig>,
    steps: Seq<StepResults>,
    i: int,
)
    requires
        steps.len() == cfgs.len(),
        0 <= i < cfgs.len(),
        steps[i].all_ok(),
    ensures
        spec_build_all(cfgs, steps)[i] is Started,
{
}

} // verus!
