use vispipe::locate::{CameraIntrinsics, TagFamily};
use vispipe::pipeline::{
    build_all, build_pipeline, plan_stages, BuildStep, ChromaSubsampling, Compression, FeedKind,
    PipelineConfig, PipelineOutcome, RateLimit, Role, Rotation, SourceFormat, Stage, StepResults,
};

fn intrinsics() -> CameraIntrinsics {
    CameraIntrinsics {
        fx: 715.98368839f64.to_bits(),
        fy: 717.41934156f64.to_bits(),
        cx: 284.7698147f64.to_bits(),
        cy: 329.76605822f64.to_bits(),
    }
}

fn frame_feed_config() -> PipelineConfig {
    PipelineConfig {
        camera: String::from("upper-global"),
        port: 1180,
        rate: Some(RateLimit::TargetFps { fps: 15 }),
        source_format: SourceFormat::Mjpg,
        rotation: Rotation::Clockwise90,
        role: Role::FrameFeed {
            compression: Compression { quality: 8, subsamp: ChromaSubsampling::Sub1x4 },
        },
    }
}

fn location_feed_config() -> PipelineConfig {
    PipelineConfig {
        camera: String::from("lower-global"),
        port: 1183,
        rate: Some(RateLimit::IntervalMillis { millis: 8 }),
        source_format: SourceFormat::Mjpg,
        rotation: Rotation::Counter90,
        role: Role::LocationFeed {
            families: vec![TagFamily::Tag36h11],
            intrinsics: intrinsics(),
            tag_size: 0.1651f64.to_bits(),
        },
    }
}

fn all_ok() -> StepResults {
    StepResults { acquire_ok: true, compressor_ok: true, start_ok: true, launch_ok: true }
}

#[test]
fn frame_feed_chain_order() {
    let stages = plan_stages(&frame_feed_config());
    assert_eq!(
        stages,
        vec![
            Stage::RateLimit { limit: RateLimit::TargetFps { fps: 15 } },
            Stage::Unpack,
            Stage::Rotate { rotation: Rotation::Clockwise90 },
            Stage::Compress {
                compression: Compression { quality: 8, subsamp: ChromaSubsampling::Sub1x4 },
            },
        ]
    );
}

#[test]
fn location_feed_chain_order() {
    let stages = plan_stages(&location_feed_config());
    assert_eq!(
        stages,
        vec![
            Stage::RateLimit { limit: RateLimit::IntervalMillis { millis: 8 } },
            Stage::Unpack,
            Stage::Rotate { rotation: Rotation::Counter90 },
        ]
    );
}

#[test]
fn raw_source_gets_conversion_stage() {
    let mut cfg = location_feed_config();
    cfg.source_format = SourceFormat::Rgb;
    cfg.rate = None;
    let stages = plan_stages(&cfg);
    assert_eq!(
        stages,
        vec![Stage::Convert, Stage::Rotate { rotation: Rotation::Counter90 }]
    );
}

#[test]
fn clean_steps_start_the_pipeline() {
    let out = build_pipeline(&frame_feed_config(), 0, &all_ok());
    let PipelineOutcome::Started { handle } = out else {
        panic!("expected a started pipeline");
    };
    assert_eq!(handle.config_index, 0);
    assert_eq!(handle.port, 1180);
    assert_eq!(handle.feed, FeedKind::Frames);
}

#[test]
fn acquire_failure_abandons_first() {
    let steps = StepResults { acquire_ok: false, ..all_ok() };
    let out = build_pipeline(&frame_feed_config(), 0, &steps);
    assert_eq!(out, PipelineOutcome::Abandoned { step: BuildStep::Acquire });
}

#[test]
fn compressor_failure_abandons_frame_feed() {
    let steps = StepResults { compressor_ok: false, ..all_ok() };
    let out = build_pipeline(&frame_feed_config(), 0, &steps);
    assert_eq!(out, PipelineOutcome::Abandoned { step: BuildStep::CompressorInit });
}

#[test]
fn location_feed_needs_no_compressor() {
    let steps = StepResults { compressor_ok: false, ..all_ok() };
    let out = build_pipeline(&location_feed_config(), 2, &steps);
    let PipelineOutcome::Started { handle } = out else {
        panic!("expected a started pipeline");
    };
    assert_eq!(handle.config_index, 2);
    assert_eq!(handle.port, 1183);
    assert_eq!(handle.feed, FeedKind::Locations);
}

#[test]
fn start_failure_abandons() {
    let steps = StepResults { start_ok: false, ..all_ok() };
    let out = build_pipeline(&location_feed_config(), 0, &steps);
    assert_eq!(out, PipelineOutcome::Abandoned { step: BuildStep::Start });
}

#[test]
fn launch_failure_abandons() {
    let steps = StepResults { launch_ok: false, ..all_ok() };
    let out = build_pipeline(&location_feed_config(), 0, &steps);
    assert_eq!(out, PipelineOutcome::Abandoned { step: BuildStep::Launch });
}

#[test]
fn one_failed_pipeline_cannot_stop_another() {
    let cfgs = vec![frame_feed_config(), location_feed_config()];
    let steps = vec![StepResults { compressor_ok: false, ..all_ok() }, all_ok()];
    let outs = build_all(&cfgs, &steps);
    assert_eq!(outs.len(), 2);
    assert_eq!(outs[0], PipelineOutcome::Abandoned { step: BuildStep::CompressorInit });
    let PipelineOutcome::Started { handle } = outs[1] else {
        panic!("the independently configured pipeline must still start");
    };
    assert_eq!(handle.port, 1183);
    assert_eq!(handle.feed, FeedKind::Locations);
}
