use vispipe::pose::{flip_sign, remap_pose, RawPose, RobotPose};

fn raw(x: f64, y: f64, z: f64, yaw: f64, pitch: f64, roll: f64) -> RawPose {
    RawPose {
        x: x.to_bits(),
        y: y.to_bits(),
        z: z.to_bits(),
        yaw: yaw.to_bits(),
        pitch: pitch.to_bits(),
        roll: roll.to_bits(),
    }
}

#[test]
fn flip_sign_is_double_negation() {
    for v in [0.0f64, -0.0, 1.5, -2.25, 722.97330759, 1e-308, f64::INFINITY] {
        assert_eq!(flip_sign(v.to_bits()), (-v).to_bits());
    }
}

#[test]
fn flip_sign_twice_restores() {
    let b = 0.1651f64.to_bits();
    assert_eq!(flip_sign(flip_sign(b)), b);
}

#[test]
fn position_passthrough() {
    let out = remap_pose(&raw(1.25, 2.5, -3.75, 10.0, 20.0, 30.0));
    assert_eq!(f64::from_bits(out.x), 1.25);
    assert_eq!(f64::from_bits(out.y), -2.5);
    assert_eq!(f64::from_bits(out.z), -3.75);
}

#[test]
fn orientation_permutation_and_signs() {
    let out = remap_pose(&raw(0.0, 0.0, 0.0, 10.0, 20.0, 30.0));
    assert_eq!(f64::from_bits(out.yaw), -20.0);
    assert_eq!(f64::from_bits(out.pitch), -30.0);
    assert_eq!(f64::from_bits(out.roll), 10.0);
}

#[test]
fn remap_exact_fields() {
    let r = raw(0.5, -0.5, 2.0, -90.0, 45.0, 180.0);
    let out = remap_pose(&r);
    let expected = RobotPose {
        x: 0.5f64.to_bits(),
        y: 0.5f64.to_bits(),
        z: 2.0f64.to_bits(),
        yaw: (-45.0f64).to_bits(),
        pitch: (-180.0f64).to_bits(),
        roll: (-90.0f64).to_bits(),
    };
    assert_eq!(out, expected);
}

#[test]
fn remap_negative_zero_y() {
    let out = remap_pose(&raw(0.0, 0.0, 0.0, 0.0, 0.0, 0.0));
    assert_eq!(out.y, (-0.0f64).to_bits());
    assert!(f64::from_bits(out.y) == 0.0);
    assert!(f64::from_bits(out.y).is_sign_negative());
}
