use rubiks_cube::geometry::{Angle, Axis, Orientation, Pose, Sign, Vector3};

fn v(x: i32, y: i32, z: i32) -> Vector3 {
    Vector3 { x, y, z }
}

const AXES: [Axis; 3] = [Axis::X, Axis::Y, Axis::Z];
const SIGNS: [Sign; 2] = [Sign::Positive, Sign::Negative];

#[test]
fn quarter_turn_about_x_is_right_handed() {
    assert_eq!(v(1, 2, 3).turned(Axis::X, Sign::Positive, Angle::Quarter), v(1, -3, 2));
    assert_eq!(v(1, 2, 3).turned(Axis::X, Sign::Negative, Angle::Quarter), v(1, 3, -2));
}

#[test]
fn quarter_turn_about_y_is_right_handed() {
    assert_eq!(v(1, 2, 3).turned(Axis::Y, Sign::Positive, Angle::Quarter), v(3, 2, -1));
    assert_eq!(v(1, 2, 3).turned(Axis::Y, Sign::Negative, Angle::Quarter), v(-3, 2, 1));
}

#[test]
fn quarter_turn_about_z_is_right_handed() {
    assert_eq!(v(1, 2, 3).turned(Axis::Z, Sign::Positive, Angle::Quarter), v(-2, 1, 3));
    assert_eq!(v(1, 2, 3).turned(Axis::Z, Sign::Negative, Angle::Quarter), v(2, -1, 3));
}

#[test]
fn half_turn_negates_the_components_across_the_axis() {
    for sign in SIGNS {
        assert_eq!(v(1, 2, 3).turned(Axis::X, sign, Angle::Half), v(1, -2, -3));
        assert_eq!(v(1, 2, 3).turned(Axis::Y, sign, Angle::Half), v(-1, 2, -3));
        assert_eq!(v(1, 2, 3).turned(Axis::Z, sign, Angle::Half), v(-1, -2, 3));
    }
}

#[test]
fn half_turn_is_two_quarter_turns() {
    for axis in AXES {
        for sign in SIGNS {
            let p = v(22, -22, 0);
            let twice = p.turned(axis, sign, Angle::Quarter).turned(axis, sign, Angle::Quarter);
            assert_eq!(p.turned(axis, sign, Angle::Half), twice);
        }
    }
}

#[test]
fn turn_keeps_the_component_along_the_axis() {
    for axis in AXES {
        for sign in SIGNS {
            for angle in [Angle::Quarter, Angle::Half] {
                let p = v(5, 7, 11);
                assert_eq!(p.turned(axis, sign, angle).along(axis), p.along(axis));
            }
        }
    }
}

#[test]
fn along_picks_the_component() {
    assert_eq!(v(5, 7, 11).along(Axis::X), 5);
    assert_eq!(v(5, 7, 11).along(Axis::Y), 7);
    assert_eq!(v(5, 7, 11).along(Axis::Z), 11);
}

#[test]
fn zero_and_identity() {
    assert_eq!(Vector3::zero(), v(0, 0, 0));
    let id = Orientation::identity();
    assert_eq!(id.x_axis, v(1, 0, 0));
    assert_eq!(id.y_axis, v(0, 1, 0));
    assert_eq!(id.z_axis, v(0, 0, 1));
}

#[test]
fn sign_flips() {
    assert_eq!(Sign::Positive.flipped(), Sign::Negative);
    assert_eq!(Sign::Negative.flipped(), Sign::Positive);
}

#[test]
fn orientation_turns_each_axis_image() {
    let turned = Orientation::identity().turned(Axis::Z, Sign::Positive, Angle::Quarter);
    assert_eq!(turned.x_axis, v(0, 1, 0));
    assert_eq!(turned.y_axis, v(-1, 0, 0));
    assert_eq!(turned.z_axis, v(0, 0, 1));
}

#[test]
fn pose_turns_position_and_orientation() {
    let pose = Pose { position: v(22, 22, 22), orientation: Orientation::identity() };
    let turned = pose.turned(Axis::Z, Sign::Negative, Angle::Quarter);
    assert_eq!(turned.position, v(22, -22, 22));
    assert_eq!(turned.orientation.x_axis, v(0, -1, 0));
    assert_eq!(turned.orientation.y_axis, v(1, 0, 0));
    assert_eq!(turned.orientation.z_axis, v(0, 0, 1));
}

#[test]
fn four_quarter_turns_restore_every_pose() {
    let start = Pose {
        position: v(22, -22, 0),
        orientation: Orientation::identity().turned(Axis::X, Sign::Positive, Angle::Quarter),
    };
    for axis in AXES {
        for sign in SIGNS {
            let mut pose = start;
            for _ in 0..4 {
                pose = pose.turned(axis, sign, Angle::Quarter);
            }
            assert_eq!(pose, start);
        }
    }
}

#[test]
fn two_half_turns_restore_every_pose() {
    let start = Pose {
        position: v(-22, 22, 22),
        orientation: Orientation::identity().turned(Axis::Y, Sign::Negative, Angle::Quarter),
    };
    for axis in AXES {
        for sign in SIGNS {
            let pose = start.turned(axis, sign, Angle::Half).turned(axis, sign, Angle::Half);
            assert_eq!(pose, start);
        }
    }
}

#[test]
fn turn_then_back_restores_every_pose() {
    let start = Pose { position: v(22, 0, -22), orientation: Orientation::identity() };
    for axis in AXES {
        for sign in SIGNS {
            for angle in [Angle::Quarter, Angle::Half] {
                let back = start.turned(axis, sign, angle).turned(axis, sign.flipped(), angle);
                assert_eq!(back, start);
            }
        }
    }
}

#[test]
fn a_single_quarter_turn_moves_a_corner() {
    let start = v(22, 22, 22);
    for axis in AXES {
        for sign in SIGNS {
            assert_ne!(start.turned(axis, sign, Angle::Quarter), start);
        }
    }
}
