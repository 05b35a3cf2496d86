//! The tangent basis of a face: the outward normal and two axes that span
//! the plane of the face.

use vstd::prelude::*;
use crate::direction::Direction;
use crate::vector::{lemma_unit_products, IntVec3, Vector3};

verus! {

impl Vector3 {
    /// The components shifted by one place: `(y, z, x)`.
    pub open spec fn rotated(self) -> Vector3 {
        Vector3 { x: self.y, y: self.z, z: self.x }
    }
}

impl Direction {
    /// The first in-plane axis of the face: the normal with its components
    /// shifted by one place.
    pub open spec fn axis_a(self) -> Vector3 {
        self.normal().rotated()
    }

    /// The second in-plane axis of the face: the vector product of the
    /// normal and the first axis.
    pub open spec fn axis_b(self) -> Vector3 {
        self.normal().cross(self.axis_a())
    }
}

/// The three vectors from which the lattice of a face is laid out.
#[derive(Clone, Copy, Debug, PartialEq, Eq, Structural)]
pub struct FaceBasis {
    /// The outward normal of the face.
    pub local_up: IntVec3,
    /// The axis along which the lattice's columns are counted.
    pub axis_a: IntVec3,
    /// The axis along which the lattice's rows are counted.
    pub axis_b: IntVec3,
}

impl FaceBasis {
    /// Whether this is the basis that `local_up` determines.
    pub open spec fn is_derived_from(self, local_up: Vector3) -> bool {
        &&& self.local_up@ == local_up
        &&& self.axis_a@ == local_up.rotated()
        &&& self.axis_b@ == local_up.cross(local_up.rotated())
    }

    /// The basis that `local_up` determines, where its second axis can be
    /// held in `i64` components.
    pub fn new(local_up: IntVec3) -> (basis: FaceBasis)
        requires
            local_up@.cross(local_up@.rotated()).fits_i64(),
        ensures
            basis.is_derived_from(local_up@),
    {
        let axis_a = IntVec3::new(local_up.y, local_up.z, local_up.x);
        let axis_b = local_up.cross(&axis_a);
        FaceBasis { local_up, axis_a, axis_b }
    }

    /// The basis of the face that looks in `direction`.
    pub fn of(direction: Direction) -> (basis: FaceBasis)
        ensures
            basis.is_derived_from(direction.normal()),
            basis.axis_a@ == direction.axis_a(),
            basis.axis_b@ == direction.axis_b(),
    {
        proof {
            lemma_axes(direction);
        }
        FaceBasis::new(direction.normal_vector())
    }
}

/// The two in-plane axes of every face, written out.
pub proof fn lemma_axes(direction: Direction)
    ensures
        direction.axis_a() == match direction {
            Direction::Up => Vector3 { x: 1, y: 0, z: 0 },
            Direction::Down => Vector3 { x: -1, y: 0, z: 0 },
            Direction::Left => Vector3 { x: 0, y: 0, z: -1 },
            Direction::Right => Vector3 { x: 0, y: 0, z: 1 },
            Direction::Back => Vector3 { x: 0, y: -1, z: 0 },
            Direction::Forward => Vector3 { x: 0, y: 1, z: 0 },
        },
        direction.axis_b() == match direction {
            Direction::Up => Vector3 { x: 0, y: 0, z: -1 },
            Direction::Down => Vector3 { x: 0, y: 0, z: -1 },
            Direction::Left => Vector3 { x: 0, y: -1, z: 0 },
            Direction::Right => Vector3 { x: 0, y: -1, z: 0 },
            Direction::Back => Vector3 { x: -1, y: 0, z: 0 },
            Direction::Forward => Vector3 { x: -1, y: 0, z: 0 },
        },
{
    match direction {
        Direction::Up => {},
        Direction::Down => {},
        Direction::Left => {},
        Direction::Right => {},
        Direction::Back => {},
        Direction::Forward => {},
    }
}

/// The basis of every face is orthonormal: its three vectors have length
/// one and are perpendicular to each other.
pub proof fn lemma_basis_orthonormal(direction: Direction)
    ensures
        direction.normal().norm_squared() == 1,
        direction.axis_a().norm_squared() == 1,
        direction.axis_b().norm_squared() == 1,
        direction.normal().dot(direction.axis_a()) == 0,
        direction.normal().dot(direction.axis_b()) == 0,
        direction.axis_a().dot(direction.axis_b()) == 0,
{
    lemma_axes(direction);
    lemma_unit_products();
}

/// The basis of every face is right-handed with the normal pointing out:
/// the vector product of the first and the second axis is the normal.
pub proof fn lemma_basis_right_handed(direction: Direction)
    ensures
        direction.axis_a().cross(direction.axis_b()) == direction.normal(),
        direction.axis_b().cross(direction.normal()) == direction.axis_a(),
        direction.normal().cross(direction.axis_a()) == direction.axis_b(),
{
    lemma_axes(direction);
    lemma_unit_products();
}

} // verus!
