//! Marker locators: turning one frame's worth of detector output into
//! location records.
//!
//! The detector itself (feature extraction, decoding, pose solving) is an
//! external collaborator; the host runs it and hands each detection over as
//! plain values. The locators here decide what is published: the planar
//! locator copies the center and identifier through, the 3D locator remaps
//! the solved pose into the robot convention. Both return one independent
//! record per detection and an empty collection — never an error — when no
//! frame was available.

use vstd::prelude::*;

use crate::pose::{spec_remap, remap_pose, RawPose, RobotPose};

verus! {

/// A marker family the detector is asked to look for.
#[derive(Clone, Copy, Debug, PartialEq, Eq, Structural)]
pub enum TagFamily {
    Tag16h5,
    Tag25h9,
    Tag36h10,
    Tag36h11,
    TagCircle21h7,
    TagCircle49h12,
    TagCustom48h12,
    TagStandard41h12,
    TagStandard52h13,
}

/// One planar detection: marker identifier and the center of the marker in
/// pixel coordinates, each coordinate the bit pattern of a double.
#[derive(Clone, Copy, Debug, PartialEq, Eq, Structural)]
pub struct Detection2d {
    pub id: usize,
    pub cx: u64,
    pub cy: u64,
}

/// One detection with a solved 6-degree-of-freedom pose, still in the
/// detector's camera-frame convention.
#[derive(Clone, Copy, Debug, PartialEq, Eq, Structural)]
pub struct RawDetection3d {
    pub id: usize,
    pub pose: RawPose,
}

/// The payload of a published location record: exactly one of a planar
/// center or a full remapped pose.
#[derive(Clone, Copy, Debug, PartialEq, Eq, Structural)]
pub enum LocationFields {
    Planar { x: u64, y: u64 },
    Full { pose: RobotPose },
}

/// One published location record: the marker identifier and its payload.
#[derive(Clone, Copy, Debug, PartialEq, Eq, Structural)]
pub struct LocationData {
    pub id: usize,
    pub fields: LocationFields,
}

/// The record the planar locator publishes for one detection.
pub open spec fn spec_planar_location(d: Detection2d) -> LocationData {
    LocationData { id: d.id, fields: LocationFields::Planar { x: d.cx, y: d.cy } }
}

/// The record the 3D locator publishes for one detection: identifier copied
/// through, pose remapped into the robot convention.
pub open spec fn spec_full_location(d: RawDetection3d) -> LocationData {
    LocationData { id: d.id, fields: LocationFields::Full { pose: spec_remap(d.pose) } }
}

/// Pinhole camera calibration: focal lengths and principal point, each the
/// bit pattern of a double. Fixed per physical camera.
#[derive(Clone, Copy, Debug, PartialEq, Eq, Structural)]
pub struct CameraIntrinsics {
    pub fx: u64,
    pub fy: u64,
    pub cx: u64,
    pub cy: u64,
}

/// The planar locator: publishes marker centers and identifiers only, no 3D
/// information.
#[derive(Debug)]
pub struct AprilTagLocator {
    pub families: Vec<TagFamily>,
}

impl AprilTagLocator {
    /// A locator configured to detect the given marker families.
    pub fn new(families: &[TagFamily]) -> (r: AprilTagLocator)
        ensures
            r.families@ == families@,
    {
        AprilTagLocator { families: vstd::slice::slice_to_vec(families) }
    }

    /// Turn one polling call's detector output into location records.
    ///
    /// `detections` is `None` when the frame source had no frame available:
    /// the result is then empty — not an error, and never a stale record.
    /// Otherwise every detection yields exactly one record, in detector
    /// order, holding its own identifier and planar center.
    pub fn locate(&self, detections: Option<&Vec<Detection2d>>) -> (out: Vec<LocationData>)
        ensures
            detections is None ==> out@.len() == 0,
            detections matches Some(ds) ==> out@.len() == ds@.len() && (forall|i: int|
                0 <= i < ds@.len() ==> out@[i] == spec_planar_location(ds@[i])),
    {
        let mut out: Vec<LocationData> = Vec::new();
        let ds = match detections {
            None => {
                return out;
            },
            Some(ds) => ds,
        };
        let n = ds.len();
        let mut i: usize = 0;
        while i < n
            invariant
                n == ds@.len(),
                i <= n,
                out@.len() == i,
                forall|k: int| 0 <= k < i ==> out@[k] == spec_planar_location(ds@[k]),
            decreases n - i,
        {
            let d = ds[i];
            out.push(LocationData { id: d.id, fields: LocationFields::Planar { x: d.cx, y: d.cy } });
            i += 1;
        }
        out
    }

    /// The full retrieval contract around [`Self::locate`]: an error raised
    /// while retrieving the frame is propagated unchanged; an absent frame
    /// and every detection are handled as by `locate`.
    pub fn locate_from_source<E>(&self, fetched: Result<Option<&Vec<Detection2d>>, E>) -> (r:
        Result<Vec<LocationData>, E>)
        ensures
            fetched matches Err(e) ==> r matches Err(e2) && e2 == e,
            fetched matches Ok(None) ==> r matches Ok(out) && out@.len() == 0,
            fetched matches Ok(Some(ds)) ==> r matches Ok(out) && out@.len() == ds@.len() && (
            forall|i: int| 0 <= i < ds@.len() ==> out@[i] == spec_planar_location(ds@[i])),
    {
        match fetched {
            Err(e) => Err(e),
            Ok(frame_detections) => Ok(self.locate(frame_detections)),
        }
    }
}

/// The 3D locator: publishes a full pose per marker, remapped from the
/// detector's camera-frame convention into the robot convention, using the
/// camera's intrinsics and the physical tag edge length (meters, carried as
/// the bit pattern of a double).
#[derive(Debug)]
pub struct AprilTag3dLocator {
    pub families: Vec<TagFamily>,
    pub intrinsics: CameraIntrinsics,
    pub tag_size: u64,
}

impl AprilTag3dLocator {
    /// A locator configured with marker families, camera calibration and the
    /// physical tag size.
    pub fn new(families: &[TagFamily], intrinsics: CameraIntrinsics, tag_size: u64) -> (r:
        AprilTag3dLocator)
        ensures
            r.families@ == families@,
            r.intrinsics == intrinsics,
            r.tag_size == tag_size,
    {
        AprilTag3dLocator { families: vstd::slice::slice_to_vec(families), intrinsics, tag_size }
    }

    /// Turn one polling call's solved detections into location records.
    ///
    /// `detections` is `None` when the frame source had no frame available:
    /// the result is then empty — not an error, and never a stale record.
    /// Otherwise every detection yields exactly one independent record, in
    /// detector order, with its own identifier copied through and its own
    /// pose remapped.
    pub fn locate(&self, detections: Option<&Vec<RawDetection3d>>) -> (out: Vec<LocationData>)
        ensures
            detections is None ==> out@.len() == 0,
            detections matches Some(ds) ==> out@.len() == ds@.len() && (forall|i: int|
                0 <= i < ds@.len() ==> out@[i] == spec_full_location(ds@[i])),
    {
        let mut out: Vec<LocationData> = Vec::new();
        let ds = match detections {
            None => {
                return out;
            },
            Some(ds) => ds,
        };
        let n = ds.len();
        let mut i: usize = 0;
        while i < n
            invariant
                n == ds@.len(),
                i <= n,
                out@.len() == i,
                forall|k: int| 0 <= k < i ==> out@[k] == spec_full_location(ds@[k]),
            decreases n - i,
        {
            let d = ds[i];
            let pose = remap_pose(&d.pose);
            out.push(LocationData { id: d.id, fields: LocationFields::Full { pose } });
            i += 1;
        }
        out
    }

    /// The full retrieval contract around [`Self::locate`]: an error raised
    /// while retrieving the frame is propagated unchanged; an absent frame
    /// and every detection are handled as by `locate`.
    pub fn locate_from_source<E>(&self, fetched: Result<Option<&Vec<RawDetection3d>>, E>) -> (r:
        Result<Vec<LocationData>, E>)
        ensures
            fetched matches Err(e) ==> r matches Err(e2) && e2 == e,
            fetched matches Ok(None) ==> r matches Ok(out) && out@.len() == 0,
            fetched matches Ok(Some(ds)) ==> r matches Ok(out) && out@.len() == ds@.len() && (
            forall|i: int| 0 <= i < ds@.len() ==> out@[i] == spec_full_location(ds@[i])),
    {
        match fetched {
            Err(e) => Err(e),
            Ok(frame_detections) => Ok(self.locate(frame_detections)),
        }
    }
}

} // verus!
