//! The move resolver: which cubies a move takes along, and the pose that
//! each of them has once the move is done.

use crate::cubie::{layout, layout_valid, on_lattice, Cubie, CubieView, LAYER_OFFSET};
use crate::geometry::{
    lemma_identity_is_rotation, lemma_turn_preserves, Angle, Axis, Frame, Orientation, Pose,
    PoseView, Sign, Vec3, Vector3,
};
use vstd::prelude::*;

verus! {

/// Which cubies along the axis of a move are turned: those of the face layer
/// on the positive side, of the one on the negative side, of the middle
/// slice, or all of them.
#[derive(Clone, Copy, Debug, PartialEq, Eq, Structural)]
pub enum LayerSelector {
    Positive,
    Negative,
    Middle,
    Whole,
}

impl LayerSelector {
    /// Whether a cubie with the coordinate `coord` along the axis of the move
    /// is turned.
    pub open spec fn spec_selects(self, coord: int) -> bool {
        match self {
            LayerSelector::Positive => coord == LAYER_OFFSET as int,
            LayerSelector::Negative => coord == -(LAYER_OFFSET as int),
            LayerSelector::Middle => coord == 0,
            LayerSelector::Whole => true,
        }
    }

    /// Whether a cubie with the coordinate `coord` along the axis of the move
    /// is turned.
    pub fn selects(self, coord: i32) -> (r: bool)
        ensures
            r == self.spec_selects(coord as int),
    {
        match self {
            LayerSelector::Positive => coord == LAYER_OFFSET,
            LayerSelector::Negative => coord == -LAYER_OFFSET,
            LayerSelector::Middle => coord == 0,
            LayerSelector::Whole => true,
        }
    }
}

/// The six faces, as a player names the layer to turn.
#[derive(Clone, Copy, Debug, PartialEq, Eq, Structural)]
pub enum Face {
    Front,
    Back,
    Up,
    Down,
    Right,
    Left,
}

impl Face {
    /// The axis that the face is turned about.
    pub open spec fn spec_axis(self) -> Axis {
        match self {
            Face::Front | Face::Back => Axis::Z,
            Face::Up | Face::Down => Axis::Y,
            Face::Right | Face::Left => Axis::X,
        }
    }

    /// The axis that the face is turned about.
    #[verifier::when_used_as_spec(spec_axis)]
    pub fn axis(self) -> (r: Axis)
        ensures
            r == self.spec_axis(),
    {
        match self {
            Face::Front | Face::Back => Axis::Z,
            Face::Up | Face::Down => Axis::Y,
            Face::Right | Face::Left => Axis::X,
        }
    }

    /// Whether the face lies on the positive side of its axis.
    pub open spec fn spec_is_positive(self) -> bool {
        self == Face::Front || self == Face::Up || self == Face::Right
    }

    /// Whether the face lies on the positive side of its axis.
    #[verifier::when_used_as_spec(spec_is_positive)]
    pub fn is_positive(self) -> (r: bool)
        ensures
            r == self.spec_is_positive(),
    {
        match self {
            Face::Front | Face::Up | Face::Right => true,
            Face::Back | Face::Down | Face::Left => false,
        }
    }
}

/// The angle that moves have in the given mode: a half turn in double-turn
/// mode, a quarter turn otherwise.
pub open spec fn mode_angle(double: bool) -> Angle {
    if double {
        Angle::Half
    } else {
        Angle::Quarter
    }
}

/// The sense in which a face move turns. Unmodified, the front, right and up
/// faces turn in the negative sense and their opposites in the positive one.
/// The prime modifier reverses it, and so does the middle modifier on every
/// face but front and back.
pub open spec fn face_sign(face: Face, prime: bool, middle: bool) -> Sign {
    let reversals: int = (if prime {
        1int
    } else {
        0int
    }) + (if face.spec_is_positive() {
        1int
    } else {
        0int
    }) + (if middle && face.spec_axis() != Axis::Z {
        1int
    } else {
        0int
    });
    if reversals % 2 == 0 {
        Sign::Positive
    } else {
        Sign::Negative
    }
}

/// The layer that a face move turns: the middle slice with the middle
/// modifier, the whole puzzle with the wide one, else the face's own layer.
pub open spec fn face_layer(face: Face, wide: bool, middle: bool) -> LayerSelector {
    if middle {
        LayerSelector::Middle
    } else if wide {
        LayerSelector::Whole
    } else if face.spec_is_positive() {
        LayerSelector::Positive
    } else {
        LayerSelector::Negative
    }
}

/// What one move does: the axis it turns about, the cubies it takes along,
/// how far it turns and in which sense.
#[derive(Clone, Copy, Debug, PartialEq, Eq, Structural)]
pub struct MoveDescriptor {
    pub axis: Axis,
    pub layer_selector: LayerSelector,
    pub angle: Angle,
    pub sign: Sign,
}

impl MoveDescriptor {
    /// The move that a face command stands for.
    pub open spec fn spec_for_face(
        face: Face,
        prime: bool,
        wide: bool,
        middle: bool,
        double: bool,
    ) -> MoveDescriptor {
        MoveDescriptor {
            axis: face.spec_axis(),
            layer_selector: face_layer(face, wide, middle),
            angle: mode_angle(double),
            sign: face_sign(face, prime, middle),
        }
    }

    /// The move that a face command stands for: `face` names the layer,
    /// `prime`, `wide` and `middle` are the modifiers held with it, and
    /// `double` is the double-turn mode.
    #[verifier::when_used_as_spec(spec_for_face)]
    pub fn for_face(face: Face, prime: bool, wide: bool, middle: bool, double: bool) -> (r:
        MoveDescriptor)
        ensures
            r == MoveDescriptor::spec_for_face(face, prime, wide, middle, double),
    {
        let mut sign = if prime {
            Sign::Negative
        } else {
            Sign::Positive
        };
        if middle {
            sign = sign.flipped();
            if face.axis() == Axis::Z {
                sign = sign.flipped();
            }
        }
        if face.is_positive() {
            sign = sign.flipped();
        }
        let layer_selector = if middle {
            LayerSelector::Middle
        } else if wide {
            LayerSelector::Whole
        } else if face.is_positive() {
            LayerSelector::Positive
        } else {
            LayerSelector::Negative
        };
        MoveDescriptor {
            axis: face.axis(),
            layer_selector,
            angle: if double {
                Angle::Half
            } else {
                Angle::Quarter
            },
            sign,
        }
    }

    /// The move that a command to turn the whole puzzle stands for.
    pub open spec fn spec_for_cube(axis: Axis, prime: bool, double: bool) -> MoveDescriptor {
        MoveDescriptor {
            axis,
            layer_selector: LayerSelector::Whole,
            angle: mode_angle(double),
            sign: if prime {
                Sign::Positive
            } else {
                Sign::Negative
            },
        }
    }

    /// The move that a command to turn the whole puzzle about `axis` stands
    /// for: in the negative sense, or in the positive one with `prime`.
    #[verifier::when_used_as_spec(spec_for_cube)]
    pub fn for_cube(axis: Axis, prime: bool, double: bool) -> (r: MoveDescriptor)
        ensures
            r == MoveDescriptor::spec_for_cube(axis, prime, double),
    {
        MoveDescriptor {
            axis,
            layer_selector: LayerSelector::Whole,
            angle: if double {
                Angle::Half
            } else {
                Angle::Quarter
            },
            sign: if prime {
                Sign::Positive
            } else {
                Sign::Negative
            },
        }
    }

    /// The move that undoes this one: the same turn in the opposite sense.
    pub open spec fn spec_inverse(self) -> MoveDescriptor {
        MoveDescriptor { sign: self.sign.spec_flipped(), ..self }
    }

    /// The move that undoes this one: the same turn in the opposite sense.
    #[verifier::when_used_as_spec(spec_inverse)]
    pub fn inverse(self) -> (r: MoveDescriptor)
        ensures
            r == self.spec_inverse(),
    {
        MoveDescriptor {
            axis: self.axis,
            layer_selector: self.layer_selector,
            angle: self.angle,
            sign: self.sign.flipped(),
        }
    }

    /// Whether the move takes the cubie along: its coordinate along the
    /// move's axis is the one that the layer selector asks for. Coordinates
    /// are whole tenths of a unit, so the comparison is exact.
    pub open spec fn affects(self, cubie: CubieView) -> bool {
        self.layer_selector.spec_selects(cubie.position.along(self.axis))
    }

    /// The pose of the cubie once the move is done: the image of its pose
    /// under the move's rotation about the origin. A quarter or half turn
    /// maps whole tenths onto whole tenths, so the image is exact and nothing
    /// is left to round.
    pub open spec fn target(self, cubie: CubieView) -> PoseView {
        cubie.pose().turn(self.axis, self.sign, self.angle)
    }

    /// The cubie after the move.
    pub open spec fn apply(self, cubie: CubieView) -> CubieView {
        if self.affects(cubie) {
            cubie.with_pose(self.target(cubie))
        } else {
            cubie
        }
    }
}

/// The model of a [`MovementNode`].
pub struct NodeView {
    pub active: bool,
    pub target: PoseView,
}

impl NodeView {
    /// The node of a cubie that no turn takes along.
    pub open spec fn idle() -> NodeView {
        NodeView {
            active: false,
            target: PoseView { position: Vec3 { x: 0, y: 0, z: 0 }, orientation: Frame::identity() },
        }
    }

    /// The target is a pose on the lattice.
    pub open spec fn valid(self) -> bool {
        &&& on_lattice(self.target.position)
        &&& self.target.orientation.is_rotation()
    }

    /// The node once its cubie has been snapped to the target.
    pub open spec fn released(self) -> NodeView {
        NodeView { active: false, target: self.target }
    }
}

/// What the turn in flight holds for one cubie: whether it takes the cubie
/// along, and if so the pose that the cubie is snapped to when the turn ends.
#[derive(Clone, Copy, Debug, PartialEq, Eq, Structural)]
pub struct MovementNode {
    pub active: bool,
    pub target: Pose,
}

impl View for MovementNode {
    type V = NodeView;

    open spec fn view(&self) -> NodeView {
        NodeView { active: self.active, target: self.target@ }
    }
}

impl Default for MovementNode {
    /// The node of a cubie that no turn takes along.
    fn default() -> (r: MovementNode)
        ensures
            r@ == NodeView::idle(),
    {
        MovementNode {
            active: false,
            target: Pose { position: Vector3::zero(), orientation: Orientation::identity() },
        }
    }
}

/// The models of the nodes, in the store's order.
pub open spec fn node_views(nodes: Seq<MovementNode>) -> Seq<NodeView> {
    nodes.map_values(|n: MovementNode| n@)
}

/// Every node holds a valid target.
pub open spec fn nodes_valid(nodes: Seq<NodeView>) -> bool {
    forall|i: int| 0 <= i < nodes.len() ==> (#[trigger] nodes[i]).valid()
}

/// Some node is active.
pub open spec fn any_active(nodes: Seq<NodeView>) -> bool {
    exists|i: int| 0 <= i < nodes.len() && (#[trigger] nodes[i]).active
}

/// The nodes once their cubies have been snapped: none is active.
pub open spec fn released(nodes: Seq<NodeView>) -> Seq<NodeView> {
    nodes.map_values(|n: NodeView| n.released())
}

/// What the move resolves to on the layout: for each cubie that it takes
/// along an active node with the cubie's pose after the move, and an idle
/// node for every other.
pub open spec fn resolve(cubies: Seq<CubieView>, descriptor: MoveDescriptor) -> Seq<NodeView> {
    cubies.map_values(
        |c: CubieView|
            if descriptor.affects(c) {
                NodeView { active: true, target: descriptor.target(c) }
            } else {
                NodeView::idle()
            },
    )
}

/// The layout with every cubie of an active node snapped to the node's
/// target.
pub open spec fn commit(cubies: Seq<CubieView>, nodes: Seq<NodeView>) -> Seq<CubieView> {
    Seq::new(
        cubies.len(),
        |i: int|
            if i < nodes.len() && nodes[i].active {
                cubies[i].with_pose(nodes[i].target)
            } else {
                cubies[i]
            },
    )
}

/// The layout after the move.
pub open spec fn apply_move(cubies: Seq<CubieView>, descriptor: MoveDescriptor) -> Seq<
    CubieView,
> {
    cubies.map_values(|c: CubieView| descriptor.apply(c))
}

/// Resolving a move and snapping to what it resolved to is the move.
pub proof fn lemma_commit_resolve(cubies: Seq<CubieView>, descriptor: MoveDescriptor)
    ensures
        commit(cubies, resolve(cubies, descriptor)) == apply_move(cubies, descriptor),
        resolve(cubies, descriptor).len() == cubies.len(),
{
}

/// A move keeps a valid layout valid, and what it resolves to is valid.
pub proof fn lemma_move_keeps_valid(cubies: Seq<CubieView>, descriptor: MoveDescriptor)
    requires
        layout_valid(cubies),
    ensures
        layout_valid(apply_move(cubies, descriptor)),
        nodes_valid(resolve(cubies, descriptor)),
{
    let moved = apply_move(cubies, descriptor);
    let nodes = resolve(cubies, descriptor);
    lemma_identity_is_rotation();
    assert forall|i: int| 0 <= i < moved.len() implies (#[trigger] moved[i]).valid() by {
        lemma_target_valid(cubies[i], descriptor);
    }
    assert forall|i: int| 0 <= i < nodes.len() implies (#[trigger] nodes[i]).valid() by {
        lemma_target_valid(cubies[i], descriptor);
    }
}

/// The pose of a valid cubie after a move is on the lattice.
pub proof fn lemma_target_valid(cubie: CubieView, descriptor: MoveDescriptor)
    requires
        cubie.valid(),
    ensures
        cubie.with_pose(descriptor.target(cubie)).valid(),
{
    lemma_turn_preserves(
        cubie.position,
        cubie.orientation,
        descriptor.axis,
        descriptor.sign,
        descriptor.angle,
    );
}

/// Snapping valid cubies to valid targets leaves them valid, and the released
/// nodes are valid with none of them active.
pub proof fn lemma_commit_keeps_valid(cubies: Seq<CubieView>, nodes: Seq<NodeView>)
    requires
        layout_valid(cubies),
        nodes_valid(nodes),
    ensures
        layout_valid(commit(cubies, nodes)),
        nodes_valid(released(nodes)),
        !any_active(released(nodes)),
        released(nodes).len() == nodes.len(),
        commit(cubies, nodes).len() == cubies.len(),
{
    assert forall|i: int| 0 <= i < cubies.len() implies (#[trigger] commit(cubies, nodes)[i]).valid() by {
        assert(cubies[i].valid());
        if i < nodes.len() {
            assert(nodes[i].valid());
        }
    }
    assert forall|i: int| 0 <= i < nodes.len() implies (#[trigger] released(nodes)[i]).valid()
        && !released(nodes)[i].active by {
        assert(nodes[i].valid());
    }
}

/// The pose that a cubie in `pose` has after a turn about `axis` in the
/// sense `direction`: a half turn in double-turn mode, else a quarter turn.
pub fn fetch_target(pose: &Pose, axis: Axis, direction: Sign, double: bool) -> (target: Pose)
    requires
        pose@.position.within(i32::MAX as int),
        pose@.orientation.within(i32::MAX as int),
    ensures
        target@ == pose@.turn(axis, direction, mode_angle(double)),
{
    let angle = if double {
        Angle::Half
    } else {
        Angle::Quarter
    };
    pose.turned(axis, direction, angle)
}

/// Resolves a move on the store: the node of every cubie, and whether the
/// move takes any cubie along.
pub fn resolve_move(cubies: &Vec<Cubie>, descriptor: &MoveDescriptor) -> (r: (
    Vec<MovementNode>,
    bool,
))
    requires
        layout_valid(layout(cubies@)),
    ensures
        node_views(r.0@) == resolve(layout(cubies@), *descriptor),
        r.1 == any_active(resolve(layout(cubies@), *descriptor)),
{
    let mut nodes: Vec<MovementNode> = Vec::new();
    let mut any = false;
    let ghost want = resolve(layout(cubies@), *descriptor);
    let mut i: usize = 0;
    while i < cubies.len()
        invariant
            i <= cubies.len(),
            layout_valid(layout(cubies@)),
            want == resolve(layout(cubies@), *descriptor),
            nodes@.len() == i,
            forall|j: int| 0 <= j < i ==> (#[trigger] nodes@[j])@ == want[j],
            any == exists|j: int| 0 <= j < i && (#[trigger] want[j]).active,
        decreases cubies.len() - i,
    {
        let cubie = &cubies[i];
        proof {
            assert(layout(cubies@)[i as int].valid());
        }
        let node = if descriptor.layer_selector.selects(cubie.position.along(descriptor.axis)) {
            let pose = cubie.pose();
            let target = match descriptor.angle {
                Angle::Quarter => fetch_target(&pose, descriptor.axis, descriptor.sign, false),
                Angle::Half => fetch_target(&pose, descriptor.axis, descriptor.sign, true),
            };
            any = true;
            MovementNode { active: true, target }
        } else {
            MovementNode::default()
        };
        assert(node@ == want[i as int]);
        nodes.push(node);
        i += 1;
    }
    (nodes, any)
}

/// Snaps every cubie of an active node to the node's target and releases the
/// nodes.
pub fn snap_to_targets(cubies: &mut Vec<Cubie>, nodes: &mut Vec<MovementNode>)
    ensures
        layout(final(cubies)@) == commit(layout(old(cubies)@), node_views(old(nodes)@)),
        node_views(final(nodes)@) == released(node_views(old(nodes)@)),
{
    let mut i: usize = 0;
    while i < nodes.len()
        invariant
            i <= nodes.len(),
            nodes.len() == old(nodes).len(),
            cubies.len() == old(cubies).len(),
            forall|j: int|
                0 <= j < cubies.len() && j < i ==> (#[trigger] cubies@[j])@ == commit(
                    layout(old(cubies)@),
                    node_views(old(nodes)@),
                )[j],
            forall|j: int| i <= j < cubies.len() ==> #[trigger] cubies@[j] == old(cubies)@[j],
            forall|j: int| 0 <= j < i ==> (#[trigger] nodes@[j])@ == old(nodes)@[j]@.released(),
            forall|j: int| i <= j < nodes.len() ==> #[trigger] nodes@[j] == old(nodes)@[j],
        decreases nodes.len() - i,
    {
        let node = nodes[i];
        if node.active && i < cubies.len() {
            let cubie = Cubie {
                position: node.target.position,
                orientation: node.target.orientation,
                default_position: cubies[i].default_position,
            };
            cubies.set(i, cubie);
        }
        nodes.set(i, MovementNode { active: false, target: node.target });
        i += 1;
    }
}

/// Releases every node: none is active afterwards, the targets stay.
pub fn release_nodes(nodes: &mut Vec<MovementNode>)
    ensures
        node_views(final(nodes)@) == released(node_views(old(nodes)@)),
{
    let mut i: usize = 0;
    while i < nodes.len()
        invariant
            i <= nodes.len(),
            nodes.len() == old(nodes).len(),
            forall|j: int| 0 <= j < i ==> (#[trigger] nodes@[j])@ == old(nodes)@[j]@.released(),
            forall|j: int| i <= j < nodes.len() ==> #[trigger] nodes@[j] == old(nodes)@[j],
        decreases nodes.len() - i,
    {
        let node = nodes[i];
        nodes.set(i, MovementNode { active: false, target: node.target });
        i += 1;
    }
}

} // verus!
