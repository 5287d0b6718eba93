use vispipe::locate::{
    AprilTag3dLocator, AprilTagLocator, CameraIntrinsics, Detection2d, LocationData,
    LocationFields, RawDetection3d, TagFamily,
};
use vispipe::pose::RawPose;

fn intrinsics() -> CameraIntrinsics {
    CameraIntrinsics {
        fx: 722.97330759f64.to_bits(),
        fy: 722.15492054f64.to_bits(),
        cx: 248.12094102f64.to_bits(),
        cy: 307.60200108f64.to_bits(),
    }
}

fn pose(x: f64, y: f64, z: f64, yaw: f64, pitch: f64, roll: f64) -> RawPose {
    RawPose {
        x: x.to_bits(),
        y: y.to_bits(),
        z: z.to_bits(),
        yaw: yaw.to_bits(),
        pitch: pitch.to_bits(),
        roll: roll.to_bits(),
    }
}

#[test]
fn planar_locator_keeps_families() {
    let locator = AprilTagLocator::new(&[TagFamily::Tag36h11, TagFamily::Tag25h9]);
    assert_eq!(locator.families, vec![TagFamily::Tag36h11, TagFamily::Tag25h9]);
}

#[test]
fn locator_3d_keeps_configuration() {
    let tag_size = 0.1651f64.to_bits();
    let locator = AprilTag3dLocator::new(&[TagFamily::Tag36h11], intrinsics(), tag_size);
    assert_eq!(locator.families, vec![TagFamily::Tag36h11]);
    assert_eq!(locator.intrinsics, intrinsics());
    assert_eq!(locator.tag_size, tag_size);
}

#[test]
fn no_frame_yields_empty_planar() {
    let locator = AprilTagLocator::new(&[TagFamily::Tag36h11]);
    assert!(locator.locate(None).is_empty());
}

#[test]
fn no_frame_yields_empty_3d() {
    let locator =
        AprilTag3dLocator::new(&[TagFamily::Tag36h11], intrinsics(), 0.1651f64.to_bits());
    assert!(locator.locate(None).is_empty());
}

#[test]
fn planar_records_copy_center_and_id() {
    let locator = AprilTagLocator::new(&[TagFamily::Tag36h11]);
    let detections = vec![
        Detection2d { id: 4, cx: 120.5f64.to_bits(), cy: 88.25f64.to_bits() },
        Detection2d { id: 9, cx: 300.0f64.to_bits(), cy: 410.75f64.to_bits() },
    ];
    let out = locator.locate(Some(&detections));
    assert_eq!(
        out,
        vec![
            LocationData {
                id: 4,
                fields: LocationFields::Planar {
                    x: 120.5f64.to_bits(),
                    y: 88.25f64.to_bits(),
                },
            },
            LocationData {
                id: 9,
                fields: LocationFields::Planar {
                    x: 300.0f64.to_bits(),
                    y: 410.75f64.to_bits(),
                },
            },
        ]
    );
}

#[test]
fn retrieval_error_is_propagated_planar() {
    let locator = AprilTagLocator::new(&[TagFamily::Tag36h11]);
    let fetched: Result<Option<&Vec<Detection2d>>, &str> = Err("camera gone");
    assert_eq!(locator.locate_from_source(fetched), Err("camera gone"));
}

#[test]
fn retrieval_error_is_propagated_3d() {
    let locator =
        AprilTag3dLocator::new(&[TagFamily::Tag36h11], intrinsics(), 0.1651f64.to_bits());
    let fetched: Result<Option<&Vec<RawDetection3d>>, &str> = Err("camera gone");
    assert_eq!(locator.locate_from_source(fetched), Err("camera gone"));
}

#[test]
fn missing_frame_is_ok_and_empty_not_an_error() {
    let locator = AprilTagLocator::new(&[TagFamily::Tag36h11]);
    let fetched: Result<Option<&Vec<Detection2d>>, &str> = Ok(None);
    assert_eq!(locator.locate_from_source(fetched), Ok(Vec::new()));
}

#[test]
fn retrieved_detections_are_located() {
    let locator =
        AprilTag3dLocator::new(&[TagFamily::Tag36h11], intrinsics(), 0.1651f64.to_bits());
    let detections = vec![RawDetection3d { id: 11, pose: pose(1.0, 0.0, 0.0, 0.0, 0.0, 0.0) }];
    let fetched: Result<Option<&Vec<RawDetection3d>>, &str> = Ok(Some(&detections));
    let out = locator.locate_from_source(fetched).expect("retrieval succeeded");
    assert_eq!(out.len(), 1);
    assert_eq!(out[0].id, 11);
}

#[test]
fn two_markers_yield_two_independent_records() {
    let locator =
        AprilTag3dLocator::new(&[TagFamily::Tag36h11], intrinsics(), 0.1651f64.to_bits());
    let detections = vec![
        RawDetection3d { id: 3, pose: pose(1.0, 2.0, 3.0, 10.0, 20.0, 30.0) },
        RawDetection3d { id: 7, pose: pose(-4.0, 5.0, 6.0, -40.0, 50.0, -60.0) },
    ];
    let out = locator.locate(Some(&detections));
    assert_eq!(out.len(), 2);

    assert_eq!(out[0].id, 3);
    let LocationFields::Full { pose: first } = out[0].fields else {
        panic!("expected a full pose");
    };
    assert_eq!(f64::from_bits(first.x), 1.0);
    assert_eq!(f64::from_bits(first.y), -2.0);
    assert_eq!(f64::from_bits(first.z), 3.0);
    assert_eq!(f64::from_bits(first.yaw), -20.0);
    assert_eq!(f64::from_bits(first.pitch), -30.0);
    assert_eq!(f64::from_bits(first.roll), 10.0);

    assert_eq!(out[1].id, 7);
    let LocationFields::Full { pose: second } = out[1].fields else {
        panic!("expected a full pose");
    };
    assert_eq!(f64::from_bits(second.x), -4.0);
    assert_eq!(f64::from_bits(second.y), -5.0);
    assert_eq!(f64::from_bits(second.z), 6.0);
    assert_eq!(f64::from_bits(second.yaw), -50.0);
    assert_eq!(f64::from_bits(second.pitch), 60.0);
    assert_eq!(f64::from_bits(second.roll), -40.0);
}
