//! Pose scalars and the camera-frame to robot-frame remapping.
//!
//! The detector solves a marker pose in its own camera-frame convention; the
//! robot consumes poses in a different axis order, with two angles
//! sign-flipped. That remapping is a fixed relabeling — no arithmetic — so
//! every scalar is carried here as the bit pattern of an IEEE-754
//! double-precision value (`u64`), on which negation is exactly a flip of the
//! sign bit. The host converts between `f64` and these bit patterns at the
//! boundary.

use vstd::prelude::*;

verus! {

/// Negation of an IEEE-754 double flips exactly the sign bit of its
/// bit pattern, for every value, finite or not.
pub open spec fn spec_flip_sign(b: u64) -> u64 {
    b ^ 0x8000_0000_0000_0000
}

/// Negate a scalar carried as its IEEE-754 bit pattern.
pub fn flip_sign(b: u64) -> (r: u64)
    ensures
        r == spec_flip_sign(b),
{
    b ^ 0x8000_0000_0000_0000
}

/// A marker pose as the detector reports it, in the camera-frame
/// convention. Each field is the bit pattern of a double: a position in
/// meters, an orientation in degrees.
#[derive(Clone, Copy, Debug, PartialEq, Eq, Structural)]
pub struct RawPose {
    pub x: u64,
    pub y: u64,
    pub z: u64,
    pub yaw: u64,
    pub pitch: u64,
    pub roll: u64,
}

/// A marker pose in the robot's output convention, fields as in [`RawPose`].
#[derive(Clone, Copy, Debug, PartialEq, Eq, Structural)]
pub struct RobotPose {
    pub x: u64,
    pub y: u64,
    pub z: u64,
    pub yaw: u64,
    pub pitch: u64,
    pub roll: u64,
}

/// The fixed camera-mount remapping: position y is negated, the three
/// angles are relabeled (detector pitch becomes output yaw, detector roll
/// becomes output pitch, detector yaw becomes output roll) and the first
/// two of those are sign-flipped.
pub open spec fn spec_remap(raw: RawPose) -> RobotPose {
    RobotPose {
        x: raw.x,
        y: spec_flip_sign(raw.y),
        z: raw.z,
        yaw: spec_flip_sign(raw.pitch),
        pitch: spec_flip_sign(raw.roll),
        roll: raw.yaw,
    }
}

/// Remap a solved pose from the detector's camera-frame convention into
/// the robot's output convention.
pub fn remap_pose(raw: &RawPose) -> (out: RobotPose)
    ensures
        out == spec_remap(*raw),
        out.x == raw.x,
        out.y == spec_flip_sign(raw.y),
        out.z == raw.z,
        out.yaw == spec_flip_sign(raw.pitch),
        out.pitch == spec_flip_sign(raw.roll),
        out.roll == raw.yaw,
{
    RobotPose {
        x: raw.x,
        y: flip_sign(raw.y),
        z: raw.z,
        yaw: flip_sign(raw.pitch),
        pitch: flip_sign(raw.roll),
        roll: raw.yaw,
    }
}

/// Law: the position components pass through the remapping with x and z
/// unchanged and y negated, for every pose.
pub proof fn lemma_position_passthrough(raw: RawPose)
    ensures
        spec_remap(raw).x == raw.x,
        spec_remap(raw).y == spec_flip_sign(raw.y),
        spec_remap(raw).z == raw.z,
{
}

/// Law: the orientation components obey the exact axis permutation and
/// sign contract — output yaw is the negated detector pitch, output pitch
/// the negated detector roll, output roll the detector yaw unchanged.
pub proof fn lemma_orientation_remap(raw: RawPose)
    ensures
        spec_remap(raw).yaw == spec_flip_sign(raw.pitch),
        spec_remap(raw).pitch == spec_flip_sign(raw.roll),
        spec_remap(raw).roll == raw.yaw,
{
}

/// Flipping the sign bit twice restores the original bit pattern: the
/// remapping loses no information.
pub proof fn lemma_flip_sign_involutive(b: u64)
    ensures
        spec_flip_sign(spec_flip_sign(b)) == b,
{
    assert((b ^ 0x8000_0000_0000_0000) ^ 0x8000_0000_0000_0000 == b) by (bit_vector);
}

/// The remapping is injective: two raw poses that remap to the same robot
/// pose were already equal, so distinct detections can never collapse.
pub proof fn lemma_remap_injective(a: RawPose, b: RawPose)
    requires
        spec_remap(a) == spec_remap(b),
    ensures
        a == b,
{
    lemma_flip_sign_involutive(a.y);
    lemma_flip_sign_involutive(b.y);
    lemma_flip_sign_involutive(a.pitch);
    lemma_flip_sign_involutive(b.pitch);
    lemma_flip_sign_involutive(a.roll);
    lemma_flip_sign_involutive(b.roll);
}

} // verus!
