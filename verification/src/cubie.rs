//! The cubie store: every cubie's current pose and its solved position, the
//! lattice they live on, and the naming scheme the cubies are set up from.

use crate::geometry::{Frame, Orientation, Pose, PoseView, Vec3, Vector3};
use vstd::prelude::*;

verus! {

/// The distance of a face layer from the centre, in tenths of a world unit.
pub const LAYER_OFFSET: i32 = 22;

/// A coordinate of a lattice point: that of a face layer or of the middle
/// slice.
pub open spec fn lattice_coord(c: int) -> bool {
    c == -(LAYER_OFFSET as int) || c == 0 || c == LAYER_OFFSET as int
}

/// The vector is one of the 27 points of the lattice.
pub open spec fn on_lattice(v: Vec3) -> bool {
    &&& lattice_coord(v.x)
    &&& lattice_coord(v.y)
    &&& lattice_coord(v.z)
}

/// The model of a [`Cubie`].
pub struct CubieView {
    pub position: Vec3,
    pub orientation: Frame,
    pub default_position: Vec3,
}

impl CubieView {
    /// A cubie in its solved pose at `position`.
    pub open spec fn at(position: Vec3) -> CubieView {
        CubieView { position, orientation: Frame::identity(), default_position: position }
    }

    /// The current pose.
    pub open spec fn pose(self) -> PoseView {
        PoseView { position: self.position, orientation: self.orientation }
    }

    /// The same cubie in another pose.
    pub open spec fn with_pose(self, pose: PoseView) -> CubieView {
        CubieView {
            position: pose.position,
            orientation: pose.orientation,
            default_position: self.default_position,
        }
    }

    /// The cubie sits on the lattice, now and when solved, and its
    /// orientation is a rotation of the cube.
    pub open spec fn valid(self) -> bool {
        &&& on_lattice(self.position)
        &&& on_lattice(self.default_position)
        &&& self.orientation.is_rotation()
    }

    /// The cubie is where it is when the puzzle is solved, unturned.
    pub open spec fn is_solved(self) -> bool {
        &&& self.position == self.default_position
        &&& self.orientation == Frame::identity()
    }

    /// The cubie put back into its solved pose.
    pub open spec fn reset(self) -> CubieView {
        CubieView::at(self.default_position)
    }
}

/// One of the rigid blocks of the puzzle. Its place in the store is its
/// identity; `default_position` never changes.
#[derive(Clone, Copy, Debug, PartialEq, Eq, Structural)]
pub struct Cubie {
    pub position: Vector3,
    pub orientation: Orientation,
    pub default_position: Vector3,
}

impl View for Cubie {
    type V = CubieView;

    open spec fn view(&self) -> CubieView {
        CubieView {
            position: self.position@,
            orientation: self.orientation@,
            default_position: self.default_position@,
        }
    }
}

/// The models of the cubies of a store, in the store's order.
pub open spec fn layout(cubies: Seq<Cubie>) -> Seq<CubieView> {
    cubies.map_values(|c: Cubie| c@)
}

/// Every cubie of the layout is valid.
pub open spec fn layout_valid(cubies: Seq<CubieView>) -> bool {
    forall|i: int| 0 <= i < cubies.len() ==> (#[trigger] cubies[i]).valid()
}

/// Every cubie of the layout is in its solved pose.
pub open spec fn layout_solved(cubies: Seq<CubieView>) -> bool {
    forall|i: int| 0 <= i < cubies.len() ==> (#[trigger] cubies[i]).is_solved()
}

/// The layout with every cubie put back into its solved pose.
pub open spec fn layout_reset(cubies: Seq<CubieView>) -> Seq<CubieView> {
    cubies.map_values(|c: CubieView| c.reset())
}

fn is_lattice_coord(c: i32) -> (r: bool)
    ensures
        r == lattice_coord(c as int),
{
    c == -LAYER_OFFSET || c == 0 || c == LAYER_OFFSET
}

fn is_on_lattice(v: &Vector3) -> (r: bool)
    ensures
        r == on_lattice(v@),
{
    is_lattice_coord(v.x) && is_lattice_coord(v.y) && is_lattice_coord(v.z)
}

fn is_signed_unit(v: &Vector3) -> (r: bool)
    ensures
        r == v@.is_signed_unit(),
{
    ((v.x == 1 || v.x == -1) && v.y == 0 && v.z == 0) || (v.x == 0 && (v.y == 1 || v.y == -1)
        && v.z == 0) || (v.x == 0 && v.y == 0 && (v.z == 1 || v.z == -1))
}

fn is_disjoint(a: &Vector3, b: &Vector3) -> (r: bool)
    ensures
        r == a@.disjoint(b@),
{
    (a.x == 0 || b.x == 0) && (a.y == 0 || b.y == 0) && (a.z == 0 || b.z == 0)
}

impl Cubie {
    /// A cubie in its solved pose at `position`.
    pub fn new(position: Vector3) -> (r: Cubie)
        ensures
            r@ == CubieView::at(position@),
    {
        Cubie { position, orientation: Orientation::identity(), default_position: position }
    }

    /// The current pose.
    pub fn pose(&self) -> (r: Pose)
        ensures
            r@ == self@.pose(),
    {
        Pose { position: self.position, orientation: self.orientation }
    }

    /// Whether the cubie sits on the lattice with a rotation of the cube as
    /// its orientation.
    pub fn is_valid(&self) -> (r: bool)
        ensures
            r == self@.valid(),
    {
        let x = &self.orientation.x_axis;
        let y = &self.orientation.y_axis;
        let z = &self.orientation.z_axis;
        is_on_lattice(&self.position) && is_on_lattice(&self.default_position) && is_signed_unit(x)
            && is_signed_unit(y) && is_disjoint(x, y) && z.x == x.y * y.z - x.z * y.y && z.y == x.z
            * y.x - x.x * y.z && z.z == x.x * y.y - x.y * y.x
    }

    /// Whether the cubie is in its solved pose.
    pub fn is_solved(&self) -> (r: bool)
        ensures
            r == self@.is_solved(),
    {
        let o = &self.orientation;
        self.position.x == self.default_position.x && self.position.y == self.default_position.y
            && self.position.z == self.default_position.z && o.x_axis.x == 1 && o.x_axis.y == 0
            && o.x_axis.z == 0 && o.y_axis.x == 0 && o.y_axis.y == 1 && o.y_axis.z == 0
            && o.z_axis.x == 0 && o.z_axis.y == 0 && o.z_axis.z == 1
    }
}

/// Whether every cubie of the store is valid.
pub fn all_valid(cubies: &Vec<Cubie>) -> (r: bool)
    ensures
        r == layout_valid(layout(cubies@)),
{
    let mut i: usize = 0;
    while i < cubies.len()
        invariant
            i <= cubies.len(),
            forall|j: int| 0 <= j < i ==> (#[trigger] layout(cubies@)[j]).valid(),
        decreases cubies.len() - i,
    {
        if !cubies[i].is_valid() {
            assert(!layout(cubies@)[i as int].valid());
            return false;
        }
        i += 1;
    }
    true
}

/// Whether every cubie of the store is in its solved pose.
pub fn all_solved(cubies: &Vec<Cubie>) -> (r: bool)
    ensures
        r == layout_solved(layout(cubies@)),
{
    let mut i: usize = 0;
    while i < cubies.len()
        invariant
            i <= cubies.len(),
            forall|j: int| 0 <= j < i ==> (#[trigger] layout(cubies@)[j]).is_solved(),
        decreases cubies.len() - i,
    {
        if !cubies[i].is_solved() {
            assert(!layout(cubies@)[i as int].is_solved());
            return false;
        }
        i += 1;
    }
    true
}

/// Puts every cubie of the store back into its solved pose.
pub fn reset_cubies(cubies: &mut Vec<Cubie>)
    ensures
        layout(final(cubies)@) == layout_reset(layout(old(cubies)@)),
{
    let mut i: usize = 0;
    while i < cubies.len()
        invariant
            i <= cubies.len(),
            cubies.len() == old(cubies).len(),
            forall|j: int| 0 <= j < i ==> (#[trigger] cubies@[j])@ == old(cubies)@[j]@.reset(),
            forall|j: int| i <= j < cubies.len() ==> #[trigger] cubies@[j] == old(cubies)@[j],
        decreases cubies.len() - i,
    {
        let fresh = Cubie::new(cubies[i].default_position);
        cubies.set(i, fresh);
        i += 1;
    }
}

/// The three kinds of block that the naming scheme knows, by the number of
/// faces they show.
#[derive(Clone, Copy, Debug, PartialEq, Eq, Structural)]
pub enum UnpackBlocks {
    Center,
    Edge,
    Corner,
}

/// The coordinate that a face letter stands for: the layer of the face
/// `plus` or of the opposite face `minus`, or the middle slice for any other
/// letter.
pub open spec fn letter_offset(c: char, plus: char, minus: char) -> int {
    if c == plus {
        LAYER_OFFSET as int
    } else if c == minus {
        -(LAYER_OFFSET as int)
    } else {
        0
    }
}

/// Where in a block's name the letter of its red or orange face is looked
/// for.
pub open spec fn second_index(name: Seq<char>, area: UnpackBlocks) -> int {
    match area {
        UnpackBlocks::Center => 0,
        UnpackBlocks::Edge => if letter_offset(name[0], 'w', 'y') != 0 {
            1
        } else {
            0
        },
        UnpackBlocks::Corner => 1,
    }
}

/// Where in a block's name the letter of its blue or green face is looked
/// for.
pub open spec fn third_index(name: Seq<char>, area: UnpackBlocks) -> int {
    match area {
        UnpackBlocks::Center => 0,
        UnpackBlocks::Edge => if letter_offset(name[second_index(name, area)], 'r', 'o') != 0 {
            second_index(name, area) + 1
        } else {
            second_index(name, area)
        },
        UnpackBlocks::Corner => 2,
    }
}

/// The name is long enough to be read as a block of kind `area`: it has a
/// first letter, and a letter where the second one is looked for.
pub open spec fn unpackable(name: Seq<char>, area: UnpackBlocks) -> bool {
    &&& name.len() > 0
    &&& second_index(name, area) < name.len()
}

/// The solved position of the block called `name`. White and yellow are the
/// faces across the x axis, red and orange those across y, blue and green
/// those across z; a letter that is missing leaves the block in the middle
/// slice.
pub open spec fn unpacked(name: Seq<char>, area: UnpackBlocks) -> Vec3 {
    Vec3 {
        x: letter_offset(name[0], 'w', 'y'),
        y: letter_offset(name[second_index(name, area)], 'r', 'o'),
        z: if third_index(name, area) < name.len() {
            letter_offset(name[third_index(name, area)], 'b', 'g')
        } else {
            0
        },
    }
}

fn letter_coord(c: char, plus: char, minus: char) -> (r: i32)
    ensures
        r == letter_offset(c, plus, minus),
{
    if c == plus {
        LAYER_OFFSET
    } else if c == minus {
        -LAYER_OFFSET
    } else {
        0
    }
}

/// Reads a block's solved position, in tenths of a world unit, out of its
/// name.
pub fn unpack_coords(name: &str, area: UnpackBlocks) -> (r: (i32, i32, i32))
    requires
        unpackable(name@, area),
    ensures
        (Vec3 { x: r.0 as int, y: r.1 as int, z: r.2 as int }) == unpacked(name@, area),
        on_lattice(unpacked(name@, area)),
{
    let x_trans = letter_coord(name.get_char(0), 'w', 'y');
    let second: usize = match area {
        UnpackBlocks::Edge => if x_trans != 0 {
            1
        } else {
            0
        },
        UnpackBlocks::Corner => 1,
        UnpackBlocks::Center => 0,
    };
    let y_trans = letter_coord(name.get_char(second), 'r', 'o');
    let third: usize = match area {
        UnpackBlocks::Edge => if y_trans != 0 {
            second + 1
        } else {
            second
        },
        UnpackBlocks::Corner => 2,
        UnpackBlocks::Center => 0,
    };
    let z_trans = if third < name.unicode_len() {
        letter_coord(name.get_char(third), 'b', 'g')
    } else {
        0
    };
    (x_trans, y_trans, z_trans)
}

/// The kind of a block, told by the length of its name.
pub open spec fn kind_of(name: Seq<char>) -> UnpackBlocks {
    if name.len() == 2 {
        UnpackBlocks::Edge
    } else if name.len() == 3 {
        UnpackBlocks::Corner
    } else {
        UnpackBlocks::Center
    }
}

/// The kind of a block, told by the length of its name: two letters name an
/// edge, three a corner, anything else a centre.
pub fn block_kind(name: &str) -> (r: UnpackBlocks)
    ensures
        r == kind_of(name@),
{
    let n = name.unicode_len();
    if n == 2 {
        UnpackBlocks::Edge
    } else if n == 3 {
        UnpackBlocks::Corner
    } else {
        UnpackBlocks::Center
    }
}

/// Adds the block called `name` to the store, in its solved pose. A name
/// that cannot be read adds nothing.
pub fn spawn_block(cubies: &mut Vec<Cubie>, name: &str) -> (spawned: bool)
    ensures
        spawned == unpackable(name@, kind_of(name@)),
        spawned ==> layout(final(cubies)@) == layout(old(cubies)@).push(
            CubieView::at(unpacked(name@, kind_of(name@))),
        ),
        !spawned ==> final(cubies)@ == old(cubies)@,
{
    let area = block_kind(name);
    let n = name.unicode_len();
    if n == 0 {
        return false;
    }
    let first = name.get_char(0);
    let needs_second = match area {
        UnpackBlocks::Edge => first == 'w' || first == 'y',
        UnpackBlocks::Corner => true,
        UnpackBlocks::Center => false,
    };
    if needs_second && n < 2 {
        return false;
    }
    let (x, y, z) = unpack_coords(name, area);
    cubies.push(Cubie::new(Vector3 { x, y, z }));
    assert(layout(cubies@) =~= layout(old(cubies)@).push(
        CubieView::at(unpacked(name@, kind_of(name@))),
    ));
    true
}

/// The solved positions of the six centres, in the order in which they are
/// set up: red, blue, white, orange, green, yellow.
pub open spec fn core_positions() -> Seq<Vec3> {
    seq![
        Vec3 { x: 0, y: 22, z: 0 },
        Vec3 { x: 0, y: 0, z: 22 },
        Vec3 { x: 22, y: 0, z: 0 },
        Vec3 { x: 0, y: -22, z: 0 },
        Vec3 { x: 0, y: 0, z: -22 },
        Vec3 { x: -22, y: 0, z: 0 },
    ]
}

/// The solved positions of the twelve edges, in the order in which they are
/// set up.
pub open spec fn edge_positions() -> Seq<Vec3> {
    seq![
        Vec3 { x: 0, y: 22, z: 22 },
        Vec3 { x: -22, y: 0, z: 22 },
        Vec3 { x: 0, y: -22, z: 22 },
        Vec3 { x: 22, y: 0, z: 22 },
        Vec3 { x: 0, y: 22, z: -22 },
        Vec3 { x: -22, y: 0, z: -22 },
        Vec3 { x: 0, y: -22, z: -22 },
        Vec3 { x: 22, y: 0, z: -22 },
        Vec3 { x: -22, y: 22, z: 0 },
        Vec3 { x: -22, y: -22, z: 0 },
        Vec3 { x: 22, y: 22, z: 0 },
        Vec3 { x: 22, y: -22, z: 0 },
    ]
}

/// The solved positions of the eight corners, in the order in which they are
/// set up.
pub open spec fn corner_positions() -> Seq<Vec3> {
    seq![
        Vec3 { x: 22, y: 22, z: 22 },
        Vec3 { x: 22, y: 22, z: -22 },
        Vec3 { x: 22, y: -22, z: 22 },
        Vec3 { x: 22, y: -22, z: -22 },
        Vec3 { x: -22, y: 22, z: 22 },
        Vec3 { x: -22, y: 22, z: -22 },
        Vec3 { x: -22, y: -22, z: 22 },
        Vec3 { x: -22, y: -22, z: -22 },
    ]
}

/// Solved cubies at the given positions.
pub open spec fn solved_at(positions: Seq<Vec3>) -> Seq<CubieView> {
    positions.map_values(|p: Vec3| CubieView::at(p))
}

/// The solved puzzle: the corners, then the edges, then the centres.
pub open spec fn solved_cube() -> Seq<CubieView> {
    solved_at(corner_positions()) + solved_at(edge_positions()) + solved_at(core_positions())
}

/// The names in `names` are those of the blocks at `positions`.
pub open spec fn names_unpack_to(names: Seq<&str>, positions: Seq<Vec3>) -> bool {
    &&& names.len() == positions.len()
    &&& forall|j: int|
        0 <= j < names.len() ==> unpackable((#[trigger] names[j])@, kind_of(names[j]@))
            && unpacked(names[j]@, kind_of(names[j]@)) == positions[j]
}

fn spawn_blocks(cubies: &mut Vec<Cubie>, names: &Vec<&str>, Ghost(positions): Ghost<Seq<Vec3>>)
    requires
        names_unpack_to(names@, positions),
    ensures
        layout(final(cubies)@) == layout(old(cubies)@) + solved_at(positions),
{
    let mut i: usize = 0;
    while i < names.len()
        invariant
            i <= names.len(),
            names_unpack_to(names@, positions),
            layout(cubies@) == layout(old(cubies)@) + solved_at(positions.take(i as int)),
        decreases names.len() - i,
    {
        spawn_block(cubies, names[i]);
        i += 1;
    }
}

/// The letters of the names, name by name.
pub open spec fn spellings(names: Seq<&str>) -> Seq<Seq<char>> {
    names.map_values(|name: &str| name@)
}

/// The names of the six centres, each the letter of its face.
pub fn core_names() -> (names: Vec<&'static str>)
    ensures
        spellings(names@) == seq!["r"@, "b"@, "w"@, "o"@, "g"@, "y"@],
        names_unpack_to(names@, core_positions()),
{
    let names = vec!["r", "b", "w", "o", "g", "y"];
    proof {
        reveal_strlit("r");
        reveal_strlit("b");
        reveal_strlit("w");
        reveal_strlit("o");
        reveal_strlit("g");
        reveal_strlit("y");
    }
    names
}

/// The names of the twelve edges, each the letters of its two faces.
pub fn edge_names() -> (names: Vec<&'static str>)
    ensures
        spellings(names@) == seq![
            "rb"@,
            "yb"@,
            "ob"@,
            "wb"@,
            "rg"@,
            "yg"@,
            "og"@,
            "wg"@,
            "yr"@,
            "yo"@,
            "wr"@,
            "wo"@,
        ],
        names_unpack_to(names@, edge_positions()),
{
    let names = vec!["rb", "yb", "ob", "wb", "rg", "yg", "og", "wg", "yr", "yo", "wr", "wo"];
    proof {
        reveal_strlit("rb");
        reveal_strlit("yb");
        reveal_strlit("ob");
        reveal_strlit("wb");
        reveal_strlit("rg");
        reveal_strlit("yg");
        reveal_strlit("og");
        reveal_strlit("wg");
        reveal_strlit("yr");
        reveal_strlit("yo");
        reveal_strlit("wr");
        reveal_strlit("wo");
    }
    names
}

/// The names of the eight corners, each the letters of its three faces.
pub fn corner_names() -> (names: Vec<&'static str>)
    ensures
        spellings(names@) == seq!["wrb"@, "wrg"@, "wob"@, "wog"@, "yrb"@, "yrg"@, "yob"@, "yog"@],
        names_unpack_to(names@, corner_positions()),
{
    let names = vec!["wrb", "wrg", "wob", "wog", "yrb", "yrg", "yob", "yog"];
    proof {
        reveal_strlit("wrb");
        reveal_strlit("wrg");
        reveal_strlit("wob");
        reveal_strlit("wog");
        reveal_strlit("yrb");
        reveal_strlit("yrg");
        reveal_strlit("yob");
        reveal_strlit("yog");
    }
    names
}

/// The names of the 26 blocks in the order of the solved store: the corners,
/// then the edges, then the centres.
pub fn cube_names() -> (names: Vec<&'static str>)
    ensures
        spellings(names@) == seq![
            "wrb"@,
            "wrg"@,
            "wob"@,
            "wog"@,
            "yrb"@,
            "yrg"@,
            "yob"@,
            "yog"@,
            "rb"@,
            "yb"@,
            "ob"@,
            "wb"@,
            "rg"@,
            "yg"@,
            "og"@,
            "wg"@,
            "yr"@,
            "yo"@,
            "wr"@,
            "wo"@,
            "r"@,
            "b"@,
            "w"@,
            "o"@,
            "g"@,
            "y"@,
        ],
        names_unpack_to(names@, corner_positions() + edge_positions() + core_positions()),
{
    let mut names = corner_names();
    let mut edges = edge_names();
    let mut cores = core_names();
    names.append(&mut edges);
    names.append(&mut cores);
    names
}

/// Adds the six centres to the store, each in its solved pose.
pub fn setup_core(cubies: &mut Vec<Cubie>)
    ensures
        layout(final(cubies)@) == layout(old(cubies)@) + solved_at(core_positions()),
{
    let names = core_names();
    spawn_blocks(cubies, &names, Ghost(core_positions()));
}

/// Adds the twelve edges to the store, each in its solved pose.
pub fn setup_edges(cubies: &mut Vec<Cubie>)
    ensures
        layout(final(cubies)@) == layout(old(cubies)@) + solved_at(edge_positions()),
{
    let names = edge_names();
    spawn_blocks(cubies, &names, Ghost(edge_positions()));
}

/// Adds the eight corners to the store, each in its solved pose.
pub fn setup_corners(cubies: &mut Vec<Cubie>)
    ensures
        layout(final(cubies)@) == layout(old(cubies)@) + solved_at(corner_positions()),
{
    let names = corner_names();
    spawn_blocks(cubies, &names, Ghost(corner_positions()));
}

/// The store of the solved puzzle: its 26 blocks, corners first, then edges,
/// then centres, every one on the lattice.
pub fn setup_cube() -> (cubies: Vec<Cubie>)
    ensures
        layout(cubies@) == solved_cube(),
        cubies@.len() == 26,
        layout_valid(solved_cube()),
        layout_solved(solved_cube()),
{
    let mut cubies: Vec<Cubie> = Vec::new();
    setup_corners(&mut cubies);
    setup_edges(&mut cubies);
    setup_core(&mut cubies);
    proof {
        lemma_solved_cube();
    }
    cubies
}

/// The solved puzzle has 26 blocks, all valid and all solved.
pub proof fn lemma_solved_cube()
    ensures
        solved_cube().len() == 26,
        layout_valid(solved_cube()),
        layout_solved(solved_cube()),
{
    let c = solved_at(corner_positions());
    let e = solved_at(edge_positions());
    let k = solved_at(core_positions());
    assert forall|i: int| 0 <= i < c.len() implies (#[trigger] c[i]).valid() && c[i].is_solved() by {
        assert(on_lattice(corner_positions()[i]));
    }
    assert forall|i: int| 0 <= i < e.len() implies (#[trigger] e[i]).valid() && e[i].is_solved() by {
        assert(on_lattice(edge_positions()[i]));
    }
    assert forall|i: int| 0 <= i < k.len() implies (#[trigger] k[i]).valid() && k[i].is_solved() by {
        assert(on_lattice(core_positions()[i]));
    }
}

} // verus!
