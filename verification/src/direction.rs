//! The six faces of the cube, in the order in which a mesh holds them.

use vstd::prelude::*;
use crate::vector::{IntVec3, Vector3};

verus! {

/// How many faces the cube has.
pub const FACE_COUNT: usize = 6;

/// The outward direction of one face of the cube.
///
/// The order of the faces is fixed, and it is the order of the variants:
/// `Up`, `Down`, `Left`, `Right`, `Back`, `Forward`.
#[derive(Clone, Copy, Debug, PartialEq, Eq, Structural)]
pub enum Direction {
    Up,
    Down,
    Left,
    Right,
    Back,
    Forward,
}

impl Direction {
    /// The place of this direction in the fixed order, counted from zero.
    pub open spec fn ordinal(self) -> int {
        match self {
            Direction::Up => 0,
            Direction::Down => 1,
            Direction::Left => 2,
            Direction::Right => 3,
            Direction::Back => 4,
            Direction::Forward => 5,
        }
    }

    /// The direction at place `i` of the fixed order, for `0 <= i < 6`.
    pub open spec fn at(i: int) -> Direction {
        if i == 0 {
            Direction::Up
        } else if i == 1 {
            Direction::Down
        } else if i == 2 {
            Direction::Left
        } else if i == 3 {
            Direction::Right
        } else if i == 4 {
            Direction::Back
        } else {
            Direction::Forward
        }
    }

    /// The unit vector that points out of the face.
    pub open spec fn normal(self) -> Vector3 {
        match self {
            Direction::Up => Vector3 { x: 0, y: 1, z: 0 },
            Direction::Down => Vector3 { x: 0, y: -1, z: 0 },
            Direction::Left => Vector3 { x: -1, y: 0, z: 0 },
            Direction::Right => Vector3 { x: 1, y: 0, z: 0 },
            Direction::Back => Vector3 { x: 0, y: 0, z: -1 },
            Direction::Forward => Vector3 { x: 0, y: 0, z: 1 },
        }
    }

    /// The name of the direction.
    pub open spec fn name_of(self) -> Seq<char> {
        match self {
            Direction::Up => "Up"@,
            Direction::Down => "Down"@,
            Direction::Left => "Left"@,
            Direction::Right => "Right"@,
            Direction::Back => "Back"@,
            Direction::Forward => "Forward"@,
        }
    }

    /// The six directions in their fixed order.
    pub fn all() -> (list: [Direction; 6])
        ensures
            forall|i: int| 0 <= i < 6 ==> list[i] == Direction::at(i),
    {
        [
            Direction::Up,
            Direction::Down,
            Direction::Left,
            Direction::Right,
            Direction::Back,
            Direction::Forward,
        ]
    }

    /// The place of this direction in the fixed order.
    pub fn index(&self) -> (i: usize)
        ensures
            i == self.ordinal(),
    {
        match self {
            Direction::Up => 0,
            Direction::Down => 1,
            Direction::Left => 2,
            Direction::Right => 3,
            Direction::Back => 4,
            Direction::Forward => 5,
        }
    }

    /// The direction at place `i` of the fixed order, if there is one.
    pub fn from_index(i: usize) -> (found: Option<Direction>)
        ensures
            i < 6 ==> found == Some(Direction::at(i as int)),
            i >= 6 ==> found is None,
    {
        if i == 0 {
            Some(Direction::Up)
        } else if i == 1 {
            Some(Direction::Down)
        } else if i == 2 {
            Some(Direction::Left)
        } else if i == 3 {
            Some(Direction::Right)
        } else if i == 4 {
            Some(Direction::Back)
        } else if i == 5 {
            Some(Direction::Forward)
        } else {
            None
        }
    }

    /// The name of the direction.
    pub fn name(&self) -> (name: &'static str)
        ensures
            name@ == self.name_of(),
    {
        match self {
            Direction::Up => "Up",
            Direction::Down => "Down",
            Direction::Left => "Left",
            Direction::Right => "Right",
            Direction::Back => "Back",
            Direction::Forward => "Forward",
        }
    }

    /// The unit vector that points out of the face.
    pub fn normal_vector(&self) -> (v: IntVec3)
        ensures
            v@ == self.normal(),
    {
        match self {
            Direction::Up => IntVec3::new(0, 1, 0),
            Direction::Down => IntVec3::new(0, -1, 0),
            Direction::Left => IntVec3::new(-1, 0, 0),
            Direction::Right => IntVec3::new(1, 0, 0),
            Direction::Back => IntVec3::new(0, 0, -1),
            Direction::Forward => IntVec3::new(0, 0, 1),
        }
    }

    /// Every direction has a place among the six, and `at` leads from the
    /// place back to the direction.
    pub proof fn lemma_at_ordinal(self)
        ensures
            0 <= self.ordinal() < 6,
            Direction::at(self.ordinal()) == self,
    {
    }

    /// Every place among the six holds a direction of its own.
    pub proof fn lemma_ordinal_at(i: int)
        requires
            0 <= i < 6,
        ensures
            Direction::at(i).ordinal() == i,
    {
    }

    /// The normal of a face has length one, and no two faces have the same
    /// normal or the same name.
    pub proof fn lemma_normal_is_unit(self, other: Direction)
        ensures
            self.normal().norm_squared() == 1,
            self.normal() == other.normal() ==> self == other,
            self.name_of() == other.name_of() ==> self == other,
    {
        reveal_strlit("Up");
        reveal_strlit("Down");
        reveal_strlit("Left");
        reveal_strlit("Right");
        reveal_strlit("Back");
        reveal_strlit("Forward");
        if self.name_of() == other.name_of() {
            assert(self.name_of().len() == other.name_of().len());
            assert(self.name_of()[0] == other.name_of()[0]);
        }
    }
}

} // verus!
