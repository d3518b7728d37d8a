use rubiks_cube::cubie::{
    all_solved, all_valid, block_kind, core_names, corner_names, cube_names, edge_names,
    reset_cubies, setup_core, setup_corners, setup_cube, setup_edges, spawn_block, unpack_coords,
    Cubie, UnpackBlocks, LAYER_OFFSET,
};
use rubiks_cube::geometry::{Angle, Axis, Orientation, Sign, Vector3};

fn v(x: i32, y: i32, z: i32) -> Vector3 {
    Vector3 { x, y, z }
}

fn positions(cubies: &Vec<Cubie>) -> Vec<(i32, i32, i32)> {
    cubies.iter().map(|c| (c.position.x, c.position.y, c.position.z)).collect()
}

#[test]
fn layer_offset_is_two_point_two_units() {
    assert_eq!(LAYER_OFFSET, 22);
}

#[test]
fn unpack_centers() {
    assert_eq!(unpack_coords("r", UnpackBlocks::Center), (0, 22, 0));
    assert_eq!(unpack_coords("b", UnpackBlocks::Center), (0, 0, 22));
    assert_eq!(unpack_coords("w", UnpackBlocks::Center), (22, 0, 0));
    assert_eq!(unpack_coords("o", UnpackBlocks::Center), (0, -22, 0));
    assert_eq!(unpack_coords("g", UnpackBlocks::Center), (0, 0, -22));
    assert_eq!(unpack_coords("y", UnpackBlocks::Center), (-22, 0, 0));
}

#[test]
fn unpack_edges() {
    assert_eq!(unpack_coords("rb", UnpackBlocks::Edge), (0, 22, 22));
    assert_eq!(unpack_coords("yb", UnpackBlocks::Edge), (-22, 0, 22));
    assert_eq!(unpack_coords("og", UnpackBlocks::Edge), (0, -22, -22));
    assert_eq!(unpack_coords("wg", UnpackBlocks::Edge), (22, 0, -22));
    assert_eq!(unpack_coords("yr", UnpackBlocks::Edge), (-22, 22, 0));
    assert_eq!(unpack_coords("wo", UnpackBlocks::Edge), (22, -22, 0));
}

#[test]
fn unpack_corners() {
    assert_eq!(unpack_coords("wrb", UnpackBlocks::Corner), (22, 22, 22));
    assert_eq!(unpack_coords("wog", UnpackBlocks::Corner), (22, -22, -22));
    assert_eq!(unpack_coords("yrg", UnpackBlocks::Corner), (-22, 22, -22));
    assert_eq!(unpack_coords("yob", UnpackBlocks::Corner), (-22, -22, 22));
}

#[test]
fn unpack_reads_unknown_letters_as_the_middle_slice() {
    assert_eq!(unpack_coords("x", UnpackBlocks::Center), (0, 0, 0));
    assert_eq!(unpack_coords("xyz", UnpackBlocks::Corner), (0, 0, 0));
    assert_eq!(unpack_coords("wr", UnpackBlocks::Corner), (22, 22, 0));
}

#[test]
fn block_kind_goes_by_length() {
    assert_eq!(block_kind("r"), UnpackBlocks::Center);
    assert_eq!(block_kind("rb"), UnpackBlocks::Edge);
    assert_eq!(block_kind("wrb"), UnpackBlocks::Corner);
    assert_eq!(block_kind(""), UnpackBlocks::Center);
    assert_eq!(block_kind("wrbx"), UnpackBlocks::Center);
}

#[test]
fn spawn_block_adds_a_solved_cubie() {
    let mut cubies = Vec::new();
    assert!(spawn_block(&mut cubies, "wob"));
    assert_eq!(cubies.len(), 1);
    assert_eq!(cubies[0], Cubie::new(v(22, -22, 22)));
    assert_eq!(cubies[0].default_position, v(22, -22, 22));
    assert_eq!(cubies[0].orientation, Orientation::identity());
}

#[test]
fn spawn_block_refuses_a_name_it_cannot_read() {
    let mut cubies = Vec::new();
    assert!(!spawn_block(&mut cubies, ""));
    assert!(cubies.is_empty());
    assert!(spawn_block(&mut cubies, "rb"));
    assert_eq!(cubies.len(), 1);
}

#[test]
fn setup_core_adds_six_centers() {
    let mut cubies = Vec::new();
    setup_core(&mut cubies);
    assert_eq!(
        positions(&cubies),
        vec![(0, 22, 0), (0, 0, 22), (22, 0, 0), (0, -22, 0), (0, 0, -22), (-22, 0, 0)]
    );
}

#[test]
fn setup_edges_adds_twelve_edges() {
    let mut cubies = Vec::new();
    setup_edges(&mut cubies);
    assert_eq!(
        positions(&cubies),
        vec![
            (0, 22, 22),
            (-22, 0, 22),
            (0, -22, 22),
            (22, 0, 22),
            (0, 22, -22),
            (-22, 0, -22),
            (0, -22, -22),
            (22, 0, -22),
            (-22, 22, 0),
            (-22, -22, 0),
            (22, 22, 0),
            (22, -22, 0),
        ]
    );
}

#[test]
fn setup_corners_adds_eight_corners() {
    let mut cubies = Vec::new();
    setup_corners(&mut cubies);
    assert_eq!(
        positions(&cubies),
        vec![
            (22, 22, 22),
            (22, 22, -22),
            (22, -22, 22),
            (22, -22, -22),
            (-22, 22, 22),
            (-22, 22, -22),
            (-22, -22, 22),
            (-22, -22, -22),
        ]
    );
}

#[test]
fn setup_appends_to_what_is_there() {
    let mut cubies = vec![Cubie::new(v(0, 0, 0))];
    setup_core(&mut cubies);
    assert_eq!(cubies.len(), 7);
    assert_eq!(cubies[0].position, v(0, 0, 0));
}

#[test]
fn setup_cube_has_26_distinct_solved_blocks() {
    let cubies = setup_cube();
    assert_eq!(cubies.len(), 26);
    assert!(all_valid(&cubies));
    assert!(all_solved(&cubies));
    let mut seen = positions(&cubies);
    seen.sort();
    seen.dedup();
    assert_eq!(seen.len(), 26);
    assert!(!seen.contains(&(0, 0, 0)));
    assert_eq!(cubies[0].position, v(22, 22, 22));
    assert_eq!(cubies[8].position, v(0, 22, 22));
    assert_eq!(cubies[20].position, v(0, 22, 0));
    assert_eq!(cubies[25].position, v(-22, 0, 0));
}

#[test]
fn cubie_validity() {
    assert!(Cubie::new(v(22, 0, -22)).is_valid());
    assert!(!Cubie::new(v(21, 0, 0)).is_valid());
    assert!(!Cubie::new(v(0, 0, 44)).is_valid());
    let mut off = Cubie::new(v(0, 0, 0));
    off.position = v(0, 1, 0);
    assert!(!off.is_valid());
    let mut skew = Cubie::new(v(0, 0, 0));
    skew.orientation.x_axis = v(1, 1, 0);
    assert!(!skew.is_valid());
    let mut flat = Cubie::new(v(0, 0, 0));
    flat.orientation.y_axis = v(1, 0, 0);
    assert!(!flat.is_valid());
    let mut mirrored = Cubie::new(v(0, 0, 0));
    mirrored.orientation.z_axis = v(0, 0, -1);
    assert!(!mirrored.is_valid());
    let mut turned = Cubie::new(v(22, 22, 22));
    turned.orientation = turned.orientation.turned(Axis::Y, Sign::Positive, Angle::Quarter);
    assert!(turned.is_valid());
}

#[test]
fn every_turn_of_a_rotation_is_a_rotation() {
    let mut cubie = Cubie::new(v(22, 22, 22));
    let mut seen = Vec::new();
    for step in 0..200usize {
        let axis = [Axis::X, Axis::Y, Axis::Z][(step * 7 + step / 3) % 3];
        let sign = [Sign::Positive, Sign::Negative][(step / 2) % 2];
        let angle = [Angle::Quarter, Angle::Half][(step / 5) % 2];
        cubie.orientation = cubie.orientation.turned(axis, sign, angle);
        cubie.position = cubie.position.turned(axis, sign, angle);
        assert!(cubie.is_valid());
        if !seen.contains(&cubie.orientation) {
            seen.push(cubie.orientation);
        }
    }
    assert_eq!(seen.len(), 24);
}

#[test]
fn cubie_solved_means_default_position_and_identity() {
    let mut cubie = Cubie::new(v(22, 22, 0));
    assert!(cubie.is_solved());
    cubie.position = v(22, -22, 0);
    assert!(!cubie.is_solved());
    cubie.position = v(22, 22, 0);
    cubie.orientation = cubie.orientation.turned(Axis::X, Sign::Positive, Angle::Half);
    assert!(!cubie.is_solved());
}

#[test]
fn cubie_pose_is_position_and_orientation() {
    let cubie = Cubie::new(v(22, 22, 0));
    let pose = cubie.pose();
    assert_eq!(pose.position, v(22, 22, 0));
    assert_eq!(pose.orientation, Orientation::identity());
}

#[test]
fn all_valid_and_all_solved_look_at_every_cubie() {
    let mut cubies = setup_cube();
    cubies[25].position = v(22, 0, 0);
    assert!(all_valid(&cubies));
    assert!(!all_solved(&cubies));
    cubies[25].position = v(23, 0, 0);
    assert!(!all_valid(&cubies));
    assert!(all_valid(&Vec::new()));
    assert!(all_solved(&Vec::new()));
}

#[test]
fn reset_cubies_puts_every_cubie_back() {
    let mut cubies = setup_cube();
    for cubie in cubies.iter_mut() {
        cubie.position = cubie.position.turned(Axis::Z, Sign::Positive, Angle::Quarter);
        cubie.orientation = cubie.orientation.turned(Axis::Z, Sign::Positive, Angle::Quarter);
    }
    assert!(!all_solved(&cubies));
    reset_cubies(&mut cubies);
    assert!(all_solved(&cubies));
    assert_eq!(cubies, setup_cube());
}

#[test]
fn the_names_of_the_blocks() {
    assert_eq!(core_names(), vec!["r", "b", "w", "o", "g", "y"]);
    assert_eq!(
        edge_names(),
        vec!["rb", "yb", "ob", "wb", "rg", "yg", "og", "wg", "yr", "yo", "wr", "wo"]
    );
    assert_eq!(corner_names(), vec!["wrb", "wrg", "wob", "wog", "yrb", "yrg", "yob", "yog"]);
    let mut all = corner_names();
    all.extend(edge_names());
    all.extend(core_names());
    assert_eq!(cube_names(), all);
}

#[test]
fn the_names_unpack_to_the_solved_store() {
    let cubies = setup_cube();
    let names = cube_names();
    assert_eq!(names.len(), cubies.len());
    for (name, cubie) in names.iter().zip(cubies.iter()) {
        let (x, y, z) = unpack_coords(name, block_kind(name));
        assert_eq!(cubie.default_position, v(x, y, z));
        assert_eq!(cubie.position, v(x, y, z));
    }
    assert_eq!(block_kind(names[0]), UnpackBlocks::Corner);
    assert_eq!(block_kind(names[8]), UnpackBlocks::Edge);
    assert_eq!(block_kind(names[20]), UnpackBlocks::Center);
}
