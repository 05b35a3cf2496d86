//! The square lattice that each face of the cube is cut into.
//!
//! A grid of resolution `n` puts `2n + 1` points on every side of a face,
//! `n` steps to either side of the face's centre. All lengths are counted
//! in lattice steps, so the cube has half-side `n`.

use vstd::prelude::*;
use vstd::arithmetic::div_mod::{
    lemma_div_pos_is_pos, lemma_fundamental_div_mod, lemma_fundamental_div_mod_converse,
    lemma_mod_bound, lemma_multiply_divide_lt,
};
use crate::basis::{lemma_axes, FaceBasis};
use crate::direction::Direction;
use crate::vector::{lemma_unit_products, IntVec3, Vector3};

verus! {

/// The number of lattice points along one side of a face.
pub open spec fn side(n: int) -> int {
    2 * n + 1
}

/// The number of lattice points of one face.
pub open spec fn face_vertex_count(n: int) -> int {
    side(n) * side(n)
}

/// The number of lattice cells of one face.
pub open spec fn face_cell_count(n: int) -> int {
    (2 * n) * (2 * n)
}

/// The number of triangle corners of one face: two triangles to a cell.
pub open spec fn face_index_count(n: int) -> int {
    6 * face_cell_count(n)
}

/// The number of lattice points of the six faces together.
pub open spec fn vertex_count(n: int) -> int {
    6 * face_vertex_count(n)
}

/// The number of triangle corners of the six faces together.
pub open spec fn index_count(n: int) -> int {
    6 * face_index_count(n)
}

/// A point of the lattice of one face, by its column `a` and its row `b`,
/// both counted from the centre of the face.
#[derive(Clone, Copy, Debug, PartialEq, Eq, Structural)]
pub struct LatticePoint {
    pub direction: Direction,
    pub a: i64,
    pub b: i64,
}

impl LatticePoint {
    /// Whether the point lies on the face of a grid of resolution `n`.
    pub open spec fn on_face(self, n: int) -> bool {
        &&& -n <= self.a <= n
        &&& -n <= self.b <= n
    }

    /// The place of the point in its face, rows first.
    pub open spec fn slot(self, n: int) -> int {
        (self.b + n) * side(n) + (self.a + n)
    }

    /// Where the point lies on the cube of half-side `n`: `n` steps out
    /// along the normal, `a` steps along the first axis and `b` steps along
    /// the second. Multiplied by the length of a step, this is the point of
    /// the face's plane from which the point of the sphere is projected.
    pub open spec fn cube_position(self, n: int) -> Vector3 {
        self.direction.normal().scaled(n).plus(
            self.direction.axis_a().scaled(self.a as int).plus(
                self.direction.axis_b().scaled(self.b as int),
            ),
        )
    }

    /// Where the point lies on the cube of half-side `resolution`, where
    /// that can be held in `i64` components.
    pub fn position(&self, resolution: u32) -> (p: IntVec3)
        requires
            self.cube_position(resolution as int).fits_i64(),
        ensures
            p@ == self.cube_position(resolution as int),
    {
        let basis = FaceBasis::of(self.direction);
        proof {
            lemma_axes(self.direction);
            lemma_unit_products();
        }
        let out = basis.local_up.scaled(resolution as i64);
        let along_a = basis.axis_a.scaled(self.a);
        let along_b = basis.axis_b.scaled(self.b);
        out.plus(&along_a.plus(&along_b))
    }
}

/// The lattice point at place `k` of the face that looks in `direction`,
/// rows first: the column runs fastest.
pub open spec fn face_vertex(direction: Direction, n: int, k: int) -> LatticePoint {
    LatticePoint { direction, a: (k % side(n) - n) as i64, b: (k / side(n) - n) as i64 }
}

/// The coordinates of a lattice point on the cube, written out for each
/// face.
pub proof fn lemma_cube_position(p: LatticePoint, n: int)
    ensures
        p.cube_position(n) == match p.direction {
            Direction::Up => Vector3 { x: p.a as int, y: n, z: -p.b },
            Direction::Down => Vector3 { x: -p.a, y: -n, z: -p.b },
            Direction::Left => Vector3 { x: -n, y: -p.b, z: -p.a },
            Direction::Right => Vector3 { x: n, y: -p.b, z: p.a as int },
            Direction::Back => Vector3 { x: -p.b, y: -p.a, z: -n },
            Direction::Forward => Vector3 { x: -p.b, y: p.a as int, z: n },
        },
{
    lemma_axes(p.direction);
    lemma_unit_products();
}

/// A lattice point of a face lies on that face of the cube: it is `n` steps
/// out along the normal and at most `n` steps from the centre along either
/// axis. So its distance from the origin is between `n` and `n` times the
/// square root of three, and it is the origin only where `n` is zero.
pub proof fn lemma_point_on_cube(p: LatticePoint, n: int)
    requires
        p.on_face(n),
    ensures
        p.cube_position(n).dot(p.direction.normal()) == n,
        p.cube_position(n).dot(p.direction.axis_a()) == p.a,
        p.cube_position(n).dot(p.direction.axis_b()) == p.b,
        p.cube_position(n).norm_squared() == n * n + p.a * p.a + p.b * p.b,
        n * n <= p.cube_position(n).norm_squared() <= 3 * (n * n),
        n <= i64::MAX ==> p.cube_position(n).fits_i64(),
{
    lemma_cube_position(p, n);
    lemma_axes(p.direction);
    lemma_unit_products();
    let a = p.a as int;
    let b = p.b as int;
    assert((-a) * (-a) == a * a) by (nonlinear_arith);
    assert((-b) * (-b) == b * b) by (nonlinear_arith);
    assert((-n) * (-n) == n * n) by (nonlinear_arith);
    assert(0 <= a * a <= n * n) by (nonlinear_arith)
        requires
            -n <= a <= n,
    ;
    assert(0 <= b * b <= n * n) by (nonlinear_arith)
        requires
            -n <= b <= n,
    ;
}

/// A place `k` below `count * len` splits into the number `k / len`, below
/// `count`, of the block it falls in, and its place `k % len` in that block.
pub proof fn lemma_split(k: int, len: int, count: int)
    requires
        0 < len,
        0 <= k < count * len,
    ensures
        0 <= k / len < count,
        0 <= k % len < len,
        k == (k / len) * len + k % len,
{
    lemma_fundamental_div_mod(k, len);
    lemma_mod_bound(k, len);
    lemma_div_pos_is_pos(k, len);
    assert(k < len * count) by (nonlinear_arith)
        requires
            k < count * len,
    ;
    lemma_multiply_divide_lt(k, len, count);
    assert(len * (k / len) == (k / len) * len) by (nonlinear_arith);
}

/// Place `k` of block `f` is place `f * len + k` of the whole, where every
/// block takes `len` places.
pub proof fn lemma_block_place(len: int, f: int, k: int)
    requires
        0 <= f,
        0 <= k < len,
    ensures
        (f * len + k) / len == f,
        (f * len + k) % len == k,
        0 <= f * len,
        (f + 1) * len == f * len + len,
{
    assert(0 <= f * len && (f + 1) * len == f * len + len) by (nonlinear_arith)
        requires
            0 <= f,
            0 < len,
    ;
    lemma_fundamental_div_mod_converse(f * len + k, len, f, k);
}

/// In a walk over the lattice, rows first, the point in row `row` and
/// column `col` is reached at place `row * side + col`.
pub proof fn lemma_walk_place(n: int, row: int, col: int)
    requires
        0 <= n,
        0 <= row < side(n),
        0 <= col < side(n),
    ensures
        0 <= row * side(n) + col < face_vertex_count(n),
        (row * side(n) + col) / side(n) == row,
        (row * side(n) + col) % side(n) == col,
        (row + 1) * side(n) == row * side(n) + side(n),
{
    let s = side(n);
    assert(0 <= row * s && row * s + s <= s * s && (row + 1) * s == row * s + s)
        by (nonlinear_arith)
        requires
            0 <= row < s,
    ;
    lemma_fundamental_div_mod_converse(row * s + col, s, row, col);
}

} // verus!
