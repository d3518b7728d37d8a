//! Axes, signs, lattice vectors and rigid poses, and the quarter and half
//! turns about the centre of the puzzle.

use vstd::prelude::*;

verus! {

/// One of the three coordinate axes through the centre of the puzzle.
#[derive(Clone, Copy, Debug, PartialEq, Eq, Structural)]
pub enum Axis {
    X,
    Y,
    Z,
}

/// The sense of a rotation about an axis: `Positive` is the right-handed one.
#[derive(Clone, Copy, Debug, PartialEq, Eq, Structural)]
pub enum Sign {
    Positive,
    Negative,
}

/// How far a move turns: a quarter of a full turn or a half.
#[derive(Clone, Copy, Debug, PartialEq, Eq, Structural)]
pub enum Angle {
    Quarter,
    Half,
}

/// A vector with mathematical integer components: the model of [`Vector3`].
pub struct Vec3 {
    pub x: int,
    pub y: int,
    pub z: int,
}

/// The images of the three unit axes under a rotation: the model of
/// [`Orientation`].
pub struct Frame {
    pub x_axis: Vec3,
    pub y_axis: Vec3,
    pub z_axis: Vec3,
}

/// A position together with an orientation: the model of [`Pose`].
pub struct PoseView {
    pub position: Vec3,
    pub orientation: Frame,
}

impl Sign {
    /// `+1` or `-1`.
    pub open spec fn value(self) -> int {
        match self {
            Sign::Positive => 1,
            Sign::Negative => -1,
        }
    }

    /// The opposite sense.
    pub open spec fn spec_flipped(self) -> Sign {
        match self {
            Sign::Positive => Sign::Negative,
            Sign::Negative => Sign::Positive,
        }
    }

    /// The opposite sense.
    #[verifier::when_used_as_spec(spec_flipped)]
    pub fn flipped(self) -> (r: Sign)
        ensures
            r == self.spec_flipped(),
    {
        match self {
            Sign::Positive => Sign::Negative,
            Sign::Negative => Sign::Positive,
        }
    }
}

impl Vec3 {
    /// The component along `axis`.
    pub open spec fn along(self, axis: Axis) -> int {
        match axis {
            Axis::X => self.x,
            Axis::Y => self.y,
            Axis::Z => self.z,
        }
    }

    /// The image of the vector under a quarter turn about `axis` through the
    /// origin, right-handed for `Positive`.
    pub open spec fn quarter_turn(self, axis: Axis, sign: Sign) -> Vec3 {
        match (axis, sign) {
            (Axis::X, Sign::Positive) => Vec3 { x: self.x, y: -self.z, z: self.y },
            (Axis::X, Sign::Negative) => Vec3 { x: self.x, y: self.z, z: -self.y },
            (Axis::Y, Sign::Positive) => Vec3 { x: self.z, y: self.y, z: -self.x },
            (Axis::Y, Sign::Negative) => Vec3 { x: -self.z, y: self.y, z: self.x },
            (Axis::Z, Sign::Positive) => Vec3 { x: -self.y, y: self.x, z: self.z },
            (Axis::Z, Sign::Negative) => Vec3 { x: self.y, y: -self.x, z: self.z },
        }
    }

    /// The image of the vector under a half turn about `axis`: the two
    /// components across the axis change sign.
    pub open spec fn half_turn(self, axis: Axis) -> Vec3 {
        match axis {
            Axis::X => Vec3 { x: self.x, y: -self.y, z: -self.z },
            Axis::Y => Vec3 { x: -self.x, y: self.y, z: -self.z },
            Axis::Z => Vec3 { x: -self.x, y: -self.y, z: self.z },
        }
    }

    /// The image of the vector under the rotation by `angle` about `axis`.
    pub open spec fn turn(self, axis: Axis, sign: Sign, angle: Angle) -> Vec3 {
        match angle {
            Angle::Quarter => self.quarter_turn(axis, sign),
            Angle::Half => self.half_turn(axis),
        }
    }

    /// Every component lies in `[-bound, bound]`.
    pub open spec fn within(self, bound: int) -> bool {
        &&& -bound <= self.x <= bound
        &&& -bound <= self.y <= bound
        &&& -bound <= self.z <= bound
    }

    /// The vector is a unit axis or the negative of one.
    pub open spec fn is_signed_unit(self) -> bool {
        ||| (self.x == 1 || self.x == -1) && self.y == 0 && self.z == 0
        ||| self.x == 0 && (self.y == 1 || self.y == -1) && self.z == 0
        ||| self.x == 0 && self.y == 0 && (self.z == 1 || self.z == -1)
    }

    /// No component is non-zero in both vectors. Of two signed unit
    /// vectors this says that they are perpendicular.
    pub open spec fn disjoint(self, other: Vec3) -> bool {
        &&& self.x == 0 || other.x == 0
        &&& self.y == 0 || other.y == 0
        &&& self.z == 0 || other.z == 0
    }

    /// The cross product.
    pub open spec fn cross(self, other: Vec3) -> Vec3 {
        Vec3 {
            x: self.y * other.z - self.z * other.y,
            y: self.z * other.x - self.x * other.z,
            z: self.x * other.y - self.y * other.x,
        }
    }
}

impl Frame {
    /// The frame of the identity rotation.
    pub open spec fn identity() -> Frame {
        Frame {
            x_axis: Vec3 { x: 1, y: 0, z: 0 },
            y_axis: Vec3 { x: 0, y: 1, z: 0 },
            z_axis: Vec3 { x: 0, y: 0, z: 1 },
        }
    }

    /// The frame after a further rotation by `angle` about `axis`: each axis
    /// image is rotated.
    pub open spec fn turn(self, axis: Axis, sign: Sign, angle: Angle) -> Frame {
        Frame {
            x_axis: self.x_axis.turn(axis, sign, angle),
            y_axis: self.y_axis.turn(axis, sign, angle),
            z_axis: self.z_axis.turn(axis, sign, angle),
        }
    }

    /// Every component of every axis image lies in `[-bound, bound]`.
    pub open spec fn within(self, bound: int) -> bool {
        &&& self.x_axis.within(bound)
        &&& self.y_axis.within(bound)
        &&& self.z_axis.within(bound)
    }

    /// The frame is one of the 24 rotations of the cube: the images of the
    /// x and y axes are unit axes up to sign, perpendicular to each other,
    /// and the image of the z axis completes them to a right-handed frame.
    pub open spec fn is_rotation(self) -> bool {
        &&& self.x_axis.is_signed_unit()
        &&& self.y_axis.is_signed_unit()
        &&& self.x_axis.disjoint(self.y_axis)
        &&& self.z_axis == self.x_axis.cross(self.y_axis)
    }
}

impl PoseView {
    /// The pose after the rotation by `angle` about `axis` through the
    /// origin: the position and the orientation both turn.
    pub open spec fn turn(self, axis: Axis, sign: Sign, angle: Angle) -> PoseView {
        PoseView {
            position: self.position.turn(axis, sign, angle),
            orientation: self.orientation.turn(axis, sign, angle),
        }
    }
}

/// A vector with integer components. As a position its unit is a tenth of a
/// world unit; as an axis image it is a unit vector.
#[derive(Clone, Copy, Debug, PartialEq, Eq, Structural)]
pub struct Vector3 {
    pub x: i32,
    pub y: i32,
    pub z: i32,
}

impl View for Vector3 {
    type V = Vec3;

    open spec fn view(&self) -> Vec3 {
        Vec3 { x: self.x as int, y: self.y as int, z: self.z as int }
    }
}

impl Vector3 {
    /// The zero vector.
    pub fn zero() -> (r: Vector3)
        ensures
            r@ == (Vec3 { x: 0, y: 0, z: 0 }),
    {
        Vector3 { x: 0, y: 0, z: 0 }
    }

    /// The component along `axis`.
    pub fn along(&self, axis: Axis) -> (r: i32)
        ensures
            r == self@.along(axis),
    {
        match axis {
            Axis::X => self.x,
            Axis::Y => self.y,
            Axis::Z => self.z,
        }
    }

    /// The image of the vector under the rotation by `angle` about `axis`.
    /// No component may be `i32::MIN`, whose negative does not exist.
    pub fn turned(&self, axis: Axis, sign: Sign, angle: Angle) -> (r: Vector3)
        requires
            self@.within(i32::MAX as int),
        ensures
            r@ == self@.turn(axis, sign, angle),
    {
        match angle {
            Angle::Quarter => match (axis, sign) {
                (Axis::X, Sign::Positive) => Vector3 { x: self.x, y: -self.z, z: self.y },
                (Axis::X, Sign::Negative) => Vector3 { x: self.x, y: self.z, z: -self.y },
                (Axis::Y, Sign::Positive) => Vector3 { x: self.z, y: self.y, z: -self.x },
                (Axis::Y, Sign::Negative) => Vector3 { x: -self.z, y: self.y, z: self.x },
                (Axis::Z, Sign::Positive) => Vector3 { x: -self.y, y: self.x, z: self.z },
                (Axis::Z, Sign::Negative) => Vector3 { x: self.y, y: -self.x, z: self.z },
            },
            Angle::Half => match axis {
                Axis::X => Vector3 { x: self.x, y: -self.y, z: -self.z },
                Axis::Y => Vector3 { x: -self.x, y: self.y, z: -self.z },
                Axis::Z => Vector3 { x: -self.x, y: -self.y, z: self.z },
            },
        }
    }
}

/// The rotation of a cubie, held as the images of the three unit axes. The
/// solved orientation is the identity.
#[derive(Clone, Copy, Debug, PartialEq, Eq, Structural)]
pub struct Orientation {
    pub x_axis: Vector3,
    pub y_axis: Vector3,
    pub z_axis: Vector3,
}

impl View for Orientation {
    type V = Frame;

    open spec fn view(&self) -> Frame {
        Frame { x_axis: self.x_axis@, y_axis: self.y_axis@, z_axis: self.z_axis@ }
    }
}

impl Orientation {
    /// The identity rotation.
    pub fn identity() -> (r: Orientation)
        ensures
            r@ == Frame::identity(),
    {
        Orientation {
            x_axis: Vector3 { x: 1, y: 0, z: 0 },
            y_axis: Vector3 { x: 0, y: 1, z: 0 },
            z_axis: Vector3 { x: 0, y: 0, z: 1 },
        }
    }

    /// The orientation after a further rotation by `angle` about `axis`.
    pub fn turned(&self, axis: Axis, sign: Sign, angle: Angle) -> (r: Orientation)
        requires
            self@.within(i32::MAX as int),
        ensures
            r@ == self@.turn(axis, sign, angle),
    {
        Orientation {
            x_axis: self.x_axis.turned(axis, sign, angle),
            y_axis: self.y_axis.turned(axis, sign, angle),
            z_axis: self.z_axis.turned(axis, sign, angle),
        }
    }
}

/// Where a cubie is and how it is turned.
#[derive(Clone, Copy, Debug, PartialEq, Eq, Structural)]
pub struct Pose {
    pub position: Vector3,
    pub orientation: Orientation,
}

impl View for Pose {
    type V = PoseView;

    open spec fn view(&self) -> PoseView {
        PoseView { position: self.position@, orientation: self.orientation@ }
    }
}

impl Pose {
    /// The pose after the rotation by `angle` about `axis` through the origin.
    pub fn turned(&self, axis: Axis, sign: Sign, angle: Angle) -> (r: Pose)
        requires
            self@.position.within(i32::MAX as int),
            self@.orientation.within(i32::MAX as int),
        ensures
            r@ == self@.turn(axis, sign, angle),
    {
        Pose {
            position: self.position.turned(axis, sign, angle),
            orientation: self.orientation.turned(axis, sign, angle),
        }
    }
}

/// The product of two numbers that are each -1, 0 or 1, without a
/// multiplication.
pub open spec fn unit_product(a: int, b: int) -> int {
    if a == 0 || b == 0 {
        0
    } else if a == b {
        1
    } else {
        -1
    }
}

/// Of numbers that are each -1, 0 or 1, [`unit_product`] is the product.
pub proof fn lemma_unit_product(a: int, b: int)
    requires
        -1 <= a <= 1,
        -1 <= b <= 1,
    ensures
        a * b == unit_product(a, b),
{
    if a == 0 {
        assert(a * b == 0) by (nonlinear_arith)
            requires
                a == 0,
        ;
    } else if a == 1 {
        assert(a * b == b) by (nonlinear_arith)
            requires
                a == 1,
        ;
    } else {
        assert(a * b == -b) by (nonlinear_arith)
            requires
                a == -1,
        ;
    }
}

/// The cross product of two vectors whose components are each -1, 0 or 1,
/// without a multiplication.
pub open spec fn unit_cross(a: Vec3, b: Vec3) -> Vec3 {
    Vec3 {
        x: unit_product(a.y, b.z) - unit_product(a.z, b.y),
        y: unit_product(a.z, b.x) - unit_product(a.x, b.z),
        z: unit_product(a.x, b.y) - unit_product(a.y, b.x),
    }
}

/// Of vectors whose components are each -1, 0 or 1, [`unit_cross`] is the
/// cross product.
pub proof fn lemma_unit_cross(a: Vec3, b: Vec3)
    requires
        a.within(1),
        b.within(1),
    ensures
        a.cross(b) == unit_cross(a, b),
{
    lemma_unit_product(a.y, b.z);
    lemma_unit_product(a.z, b.y);
    lemma_unit_product(a.z, b.x);
    lemma_unit_product(a.x, b.z);
    lemma_unit_product(a.x, b.y);
    lemma_unit_product(a.y, b.x);
}

/// A turn keeps the component along its axis, the bounds of a vector and the
/// rotations of the cube.
pub proof fn lemma_turn_preserves(v: Vec3, f: Frame, axis: Axis, sign: Sign, angle: Angle)
    ensures
        v.turn(axis, sign, angle).along(axis) == v.along(axis),
        forall|bound: int| v.within(bound) ==> #[trigger] v.turn(axis, sign, angle).within(bound),
        v.is_signed_unit() ==> v.turn(axis, sign, angle).is_signed_unit(),
        f.is_rotation() ==> f.turn(axis, sign, angle).is_rotation(),
        f.is_rotation() ==> f.within(1),
{
    if f.is_rotation() {
        let g = f.turn(axis, sign, angle);
        lemma_unit_cross(f.x_axis, f.y_axis);
        lemma_unit_cross(g.x_axis, g.y_axis);
    }
}

/// The identity is a rotation of the cube.
pub proof fn lemma_identity_is_rotation()
    ensures
        Frame::identity().is_rotation(),
{
    let id = Frame::identity();
    lemma_unit_cross(id.x_axis, id.y_axis);
}

} // verus!
