use rubiks_cube::cubie::{setup_cube, Cubie};
use rubiks_cube::geometry::{Angle, Axis, Orientation, Pose, Sign, Vector3};
use rubiks_cube::moves::{
    fetch_target, release_nodes, resolve_move, snap_to_targets, Face, LayerSelector,
    MoveDescriptor, MovementNode,
};

fn v(x: i32, y: i32, z: i32) -> Vector3 {
    Vector3 { x, y, z }
}

fn quarter(axis: Axis, layer_selector: LayerSelector, sign: Sign) -> MoveDescriptor {
    MoveDescriptor { axis, layer_selector, angle: Angle::Quarter, sign }
}

fn apply(cubies: &mut Vec<Cubie>, descriptor: &MoveDescriptor) -> usize {
    let (mut nodes, _) = resolve_move(cubies, descriptor);
    let moved = nodes.iter().filter(|n| n.active).count();
    snap_to_targets(cubies, &mut nodes);
    moved
}

const FACES: [Face; 6] = [Face::Front, Face::Back, Face::Up, Face::Down, Face::Right, Face::Left];

#[test]
fn layer_selector_selects_its_coordinate() {
    assert!(LayerSelector::Positive.selects(22));
    assert!(!LayerSelector::Positive.selects(0));
    assert!(!LayerSelector::Positive.selects(-22));
    assert!(!LayerSelector::Positive.selects(21));
    assert!(LayerSelector::Negative.selects(-22));
    assert!(!LayerSelector::Negative.selects(22));
    assert!(LayerSelector::Middle.selects(0));
    assert!(!LayerSelector::Middle.selects(22));
    assert!(LayerSelector::Whole.selects(22));
    assert!(LayerSelector::Whole.selects(0));
    assert!(LayerSelector::Whole.selects(-22));
    assert!(LayerSelector::Whole.selects(5));
}

#[test]
fn faces_have_their_axes_and_sides() {
    assert_eq!(Face::Front.axis(), Axis::Z);
    assert_eq!(Face::Back.axis(), Axis::Z);
    assert_eq!(Face::Up.axis(), Axis::Y);
    assert_eq!(Face::Down.axis(), Axis::Y);
    assert_eq!(Face::Right.axis(), Axis::X);
    assert_eq!(Face::Left.axis(), Axis::X);
    assert!(Face::Front.is_positive());
    assert!(Face::Up.is_positive());
    assert!(Face::Right.is_positive());
    assert!(!Face::Back.is_positive());
    assert!(!Face::Down.is_positive());
    assert!(!Face::Left.is_positive());
}

#[test]
fn plain_face_moves() {
    let f = MoveDescriptor::for_face(Face::Front, false, false, false, false);
    assert_eq!(f, quarter(Axis::Z, LayerSelector::Positive, Sign::Negative));
    let b = MoveDescriptor::for_face(Face::Back, false, false, false, false);
    assert_eq!(b, quarter(Axis::Z, LayerSelector::Negative, Sign::Positive));
    let u = MoveDescriptor::for_face(Face::Up, false, false, false, false);
    assert_eq!(u, quarter(Axis::Y, LayerSelector::Positive, Sign::Negative));
    let d = MoveDescriptor::for_face(Face::Down, false, false, false, false);
    assert_eq!(d, quarter(Axis::Y, LayerSelector::Negative, Sign::Positive));
    let r = MoveDescriptor::for_face(Face::Right, false, false, false, false);
    assert_eq!(r, quarter(Axis::X, LayerSelector::Positive, Sign::Negative));
    let l = MoveDescriptor::for_face(Face::Left, false, false, false, false);
    assert_eq!(l, quarter(Axis::X, LayerSelector::Negative, Sign::Positive));
}

#[test]
fn prime_inverts_the_sign() {
    for face in FACES {
        for wide in [false, true] {
            for middle in [false, true] {
                for double in [false, true] {
                    let plain = MoveDescriptor::for_face(face, false, wide, middle, double);
                    let prime = MoveDescriptor::for_face(face, true, wide, middle, double);
                    assert_eq!(prime, plain.inverse());
                    assert_ne!(prime.sign, plain.sign);
                }
            }
        }
    }
}

#[test]
fn middle_turns_the_middle_slice() {
    for face in FACES {
        for wide in [false, true] {
            let m = MoveDescriptor::for_face(face, false, wide, true, false);
            assert_eq!(m.layer_selector, LayerSelector::Middle);
            assert_eq!(m.axis, face.axis());
        }
    }
}

#[test]
fn middle_reverses_every_face_but_front_and_back() {
    assert_eq!(MoveDescriptor::for_face(Face::Front, false, false, true, false).sign, Sign::Negative);
    assert_eq!(MoveDescriptor::for_face(Face::Back, false, false, true, false).sign, Sign::Positive);
    assert_eq!(MoveDescriptor::for_face(Face::Up, false, false, true, false).sign, Sign::Positive);
    assert_eq!(MoveDescriptor::for_face(Face::Down, false, false, true, false).sign, Sign::Negative);
    assert_eq!(MoveDescriptor::for_face(Face::Right, false, false, true, false).sign, Sign::Positive);
    assert_eq!(MoveDescriptor::for_face(Face::Left, false, false, true, false).sign, Sign::Negative);
}

#[test]
fn wide_takes_the_whole_puzzle_along() {
    for face in FACES {
        let w = MoveDescriptor::for_face(face, false, true, false, false);
        let plain = MoveDescriptor::for_face(face, false, false, false, false);
        assert_eq!(w.layer_selector, LayerSelector::Whole);
        assert_eq!(w.sign, plain.sign);
        assert_eq!(w.axis, plain.axis);
    }
}

#[test]
fn double_mode_makes_half_turns() {
    for face in FACES {
        assert_eq!(MoveDescriptor::for_face(face, false, false, false, true).angle, Angle::Half);
        assert_eq!(MoveDescriptor::for_face(face, false, false, false, false).angle, Angle::Quarter);
    }
    assert_eq!(MoveDescriptor::for_cube(Axis::X, false, true).angle, Angle::Half);
    assert_eq!(MoveDescriptor::for_cube(Axis::X, false, false).angle, Angle::Quarter);
}

#[test]
fn whole_cube_moves() {
    let plain = MoveDescriptor::for_cube(Axis::Y, false, false);
    assert_eq!(plain, quarter(Axis::Y, LayerSelector::Whole, Sign::Negative));
    let prime = MoveDescriptor::for_cube(Axis::Y, true, false);
    assert_eq!(prime, quarter(Axis::Y, LayerSelector::Whole, Sign::Positive));
}

#[test]
fn inverse_flips_only_the_sign() {
    let m = MoveDescriptor {
        axis: Axis::X,
        layer_selector: LayerSelector::Negative,
        angle: Angle::Half,
        sign: Sign::Positive,
    };
    let inv = m.inverse();
    assert_eq!(inv.axis, Axis::X);
    assert_eq!(inv.layer_selector, LayerSelector::Negative);
    assert_eq!(inv.angle, Angle::Half);
    assert_eq!(inv.sign, Sign::Negative);
    assert_eq!(inv.inverse(), m);
}

#[test]
fn default_node_is_idle_at_the_origin() {
    let node = MovementNode::default();
    assert!(!node.active);
    assert_eq!(node.target.position, v(0, 0, 0));
    assert_eq!(node.target.orientation, Orientation::identity());
}

#[test]
fn fetch_target_is_the_turned_pose() {
    let pose = Pose { position: v(22, 22, 22), orientation: Orientation::identity() };
    let quarter = fetch_target(&pose, Axis::Z, Sign::Negative, false);
    assert_eq!(quarter.position, v(22, -22, 22));
    assert_eq!(quarter.orientation.x_axis, v(0, -1, 0));
    assert_eq!(quarter.orientation.y_axis, v(1, 0, 0));
    assert_eq!(quarter.orientation.z_axis, v(0, 0, 1));
    let half = fetch_target(&pose, Axis::Z, Sign::Negative, true);
    assert_eq!(half.position, v(-22, -22, 22));
    assert_eq!(half.orientation.x_axis, v(-1, 0, 0));
    assert_eq!(half.orientation.y_axis, v(0, -1, 0));
    assert_eq!(half.orientation.z_axis, v(0, 0, 1));
}

#[test]
fn a_face_move_takes_nine_cubies_along() {
    let cubies = setup_cube();
    for axis in [Axis::X, Axis::Y, Axis::Z] {
        for layer in [LayerSelector::Positive, LayerSelector::Negative] {
            let (nodes, any) = resolve_move(&cubies, &quarter(axis, layer, Sign::Positive));
            assert!(any);
            assert_eq!(nodes.len(), 26);
            assert_eq!(nodes.iter().filter(|n| n.active).count(), 9);
        }
    }
}

#[test]
fn a_middle_move_takes_eight_cubies_along_and_a_whole_move_all() {
    let cubies = setup_cube();
    for axis in [Axis::X, Axis::Y, Axis::Z] {
        let (nodes, any) = resolve_move(&cubies, &quarter(axis, LayerSelector::Middle, Sign::Positive));
        assert!(any);
        assert_eq!(nodes.iter().filter(|n| n.active).count(), 8);
        let (nodes, any) = resolve_move(&cubies, &quarter(axis, LayerSelector::Whole, Sign::Positive));
        assert!(any);
        assert_eq!(nodes.iter().filter(|n| n.active).count(), 26);
    }
}

#[test]
fn resolve_marks_exactly_the_layer_and_fixes_the_targets() {
    let cubies = setup_cube();
    let front = quarter(Axis::Z, LayerSelector::Positive, Sign::Negative);
    let (nodes, _) = resolve_move(&cubies, &front);
    for (cubie, node) in cubies.iter().zip(nodes.iter()) {
        assert_eq!(node.active, cubie.position.z == 22);
        if node.active {
            assert_eq!(node.target, cubie.pose().turned(Axis::Z, Sign::Negative, Angle::Quarter));
        } else {
            assert_eq!(*node, MovementNode::default());
        }
    }
    assert_eq!(nodes[0].target.position, v(22, -22, 22));
}

#[test]
fn a_move_that_matches_no_cubie_resolves_to_nothing() {
    let cubies = vec![Cubie::new(v(22, 0, 0)), Cubie::new(v(0, 0, 0))];
    let (nodes, any) = resolve_move(&cubies, &quarter(Axis::X, LayerSelector::Negative, Sign::Positive));
    assert!(!any);
    assert_eq!(nodes, vec![MovementNode::default(), MovementNode::default()]);
    let (nodes, any) = resolve_move(&Vec::new(), &quarter(Axis::X, LayerSelector::Whole, Sign::Positive));
    assert!(!any);
    assert!(nodes.is_empty());
}

#[test]
fn snap_moves_the_active_cubies_and_releases_the_nodes() {
    let mut cubies = setup_cube();
    let before = cubies.clone();
    let front = quarter(Axis::Z, LayerSelector::Positive, Sign::Negative);
    let (mut nodes, _) = resolve_move(&cubies, &front);
    let planned = nodes.clone();
    snap_to_targets(&mut cubies, &mut nodes);
    for i in 0..26 {
        assert!(!nodes[i].active);
        assert_eq!(nodes[i].target, planned[i].target);
        assert_eq!(cubies[i].default_position, before[i].default_position);
        if planned[i].active {
            assert_eq!(cubies[i].pose(), planned[i].target);
        } else {
            assert_eq!(cubies[i], before[i]);
        }
    }
    assert_eq!(cubies[0].position, v(22, -22, 22));
}

#[test]
fn release_nodes_keeps_the_targets() {
    let cubies = setup_cube();
    let (mut nodes, _) = resolve_move(&cubies, &quarter(Axis::X, LayerSelector::Whole, Sign::Positive));
    let planned = nodes.clone();
    release_nodes(&mut nodes);
    for i in 0..26 {
        assert!(!nodes[i].active);
        assert_eq!(nodes[i].target, planned[i].target);
    }
}

#[test]
fn four_equal_quarter_moves_restore_the_layout() {
    let start = setup_cube();
    for axis in [Axis::X, Axis::Y, Axis::Z] {
        for layer in [
            LayerSelector::Positive,
            LayerSelector::Negative,
            LayerSelector::Middle,
            LayerSelector::Whole,
        ] {
            for sign in [Sign::Positive, Sign::Negative] {
                let mut cubies = start.clone();
                let m = quarter(axis, layer, sign);
                apply(&mut cubies, &m);
                assert_ne!(cubies, start);
                apply(&mut cubies, &m);
                apply(&mut cubies, &m);
                assert_ne!(cubies, start);
                apply(&mut cubies, &m);
                assert_eq!(cubies, start);
            }
        }
    }
}

#[test]
fn two_equal_half_moves_restore_the_layout() {
    let start = setup_cube();
    let m = MoveDescriptor {
        axis: Axis::Y,
        layer_selector: LayerSelector::Positive,
        angle: Angle::Half,
        sign: Sign::Positive,
    };
    let q = quarter(Axis::Y, LayerSelector::Positive, Sign::Positive);
    let mut by_halves = start.clone();
    apply(&mut by_halves, &m);
    let mut by_quarters = start.clone();
    apply(&mut by_quarters, &q);
    apply(&mut by_quarters, &q);
    assert_eq!(by_halves, by_quarters);
    apply(&mut by_halves, &m);
    assert_eq!(by_halves, start);
}

#[test]
fn a_move_then_its_inverse_restores_a_scrambled_layout() {
    let mut cubies = setup_cube();
    apply(&mut cubies, &quarter(Axis::X, LayerSelector::Positive, Sign::Positive));
    apply(&mut cubies, &quarter(Axis::Y, LayerSelector::Negative, Sign::Negative));
    let mixed = cubies.clone();
    for face in FACES {
        let m = MoveDescriptor::for_face(face, false, false, false, false);
        assert_eq!(apply(&mut cubies, &m), 9);
        assert_ne!(cubies, mixed);
        assert_eq!(apply(&mut cubies, &m.inverse()), 9);
        assert_eq!(cubies, mixed);
    }
}

#[test]
fn moves_about_different_axes_do_not_commute() {
    let x = quarter(Axis::X, LayerSelector::Positive, Sign::Positive);
    let y = quarter(Axis::Y, LayerSelector::Positive, Sign::Positive);
    let mut xy = setup_cube();
    apply(&mut xy, &x);
    apply(&mut xy, &y);
    let mut yx = setup_cube();
    apply(&mut yx, &y);
    apply(&mut yx, &x);
    assert_ne!(xy, yx);
}
