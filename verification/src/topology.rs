//! What holds of every mesh: where each lattice point stands, and which
//! lattice points each triangle joins.

use vstd::prelude::*;
use vstd::arithmetic::div_mod::lemma_fundamental_div_mod_converse;
use crate::direction::Direction;
use crate::grid::{is_resolution, lemma_counts_fit};
use crate::lattice::{
    face_cell_count, face_index_count, face_vertex, face_vertex_count, index_count,
    lemma_block_place, lemma_split, lemma_walk_place, side, vertex_count, LatticePoint,
};
use crate::mesh::{
    cell_first_corner, index_at, lemma_cell_place, local_index, vertex_at, MeshLayout,
};

verus! {

/// The row in which cell `c` of a face lies. The corners of the cell are
/// lattice points of this row and of the next.
pub open spec fn cell_row(n: int, c: int) -> int {
    c / (2 * n)
}

/// The column in which cell `c` of a face lies. The corners of the cell are
/// lattice points of this column and of the next.
pub open spec fn cell_column(n: int, c: int) -> int {
    c % (2 * n)
}

/// How many rows below the first corner of its cell the `j`-th corner of a
/// cell's two triangles lies.
pub open spec fn corner_row_step(j: int) -> int {
    if j == 2 || j == 4 || j == 5 {
        1
    } else {
        0
    }
}

/// How many columns behind the first corner of its cell the `j`-th corner
/// of a cell's two triangles lies.
pub open spec fn corner_column_step(j: int) -> int {
    if j == 1 || j == 2 || j == 4 {
        1
    } else {
        0
    }
}

/// The lattice point at place `k` of a mesh belongs to face `k / (2n + 1)²`
/// in the fixed order of the directions: the first `(2n + 1)²` places are
/// those of the first direction, and so on. In its face it stands at place
/// `k % (2n + 1)²`, rows first, and it lies on the face.
pub proof fn lemma_vertex_place(n: int, k: int)
    requires
        is_resolution(n),
        0 <= k < vertex_count(n),
    ensures
        0 <= k / face_vertex_count(n) < 6,
        vertex_at(n, k).direction == Direction::at(k / face_vertex_count(n)),
        vertex_at(n, k).on_face(n),
        vertex_at(n, k).slot(n) == k % face_vertex_count(n),
        k == vertex_at(n, k).direction.ordinal() * face_vertex_count(n) + vertex_at(n, k).slot(n),
{
    lemma_counts_fit(n);
    let len = face_vertex_count(n);
    lemma_split(k, len, 6);
    Direction::lemma_ordinal_at(k / len);
    lemma_split(k % len, side(n), side(n));
}

/// The lattice point in row `row` and column `col` of a face stands at
/// place `row * (2n + 1) + col` of that face.
pub proof fn lemma_face_vertex(direction: Direction, n: int, row: int, col: int)
    requires
        is_resolution(n),
        0 <= row < side(n),
        0 <= col < side(n),
    ensures
        face_vertex(direction, n, row * side(n) + col) == (LatticePoint {
            direction,
            a: (col - n) as i64,
            b: (row - n) as i64,
        }),
{
    lemma_walk_place(n, row, col);
}

/// The `j`-th triangle corner of a face is a lattice point of that face:
/// the corner of cell `j / 6` that `j % 6` names.
pub proof fn lemma_local_index(n: int, j: int)
    requires
        is_resolution(n),
        0 <= j < face_index_count(n),
    ensures
        0 <= j / 6 < face_cell_count(n),
        0 <= cell_row(n, j / 6) < 2 * n,
        0 <= cell_column(n, j / 6) < 2 * n,
        local_index(n, j) == (cell_row(n, j / 6) + corner_row_step(j % 6)) * side(n) + (
        cell_column(n, j / 6) + corner_column_step(j % 6)),
        0 <= local_index(n, j) < face_vertex_count(n),
{
    lemma_counts_fit(n);
    let c = j / 6;
    lemma_split(c, 2 * n, 2 * n);
    let row = cell_row(n, c);
    let col = cell_column(n, c);
    lemma_cell_place(n, row, col);
    assert(cell_first_corner(n, c) == row * side(n) + col);
    assert((row + 1) * side(n) == row * side(n) + side(n)) by (nonlinear_arith);
    assert(0 <= row * side(n)) by (nonlinear_arith)
        requires
            0 <= row,
            0 <= side(n),
    ;
}

/// Every triangle corner of a mesh names a lattice point of the mesh, and
/// one of the face that the corner belongs to: no triangle reaches across
/// the edge between two faces.
pub proof fn lemma_index_in_face(n: int, k: int)
    requires
        is_resolution(n),
        0 <= k < index_count(n),
    ensures
        0 <= k / face_index_count(n) < 6,
        (k / face_index_count(n)) * face_vertex_count(n) <= index_at(n, k) < (k / face_index_count(
            n,
        ) + 1) * face_vertex_count(n),
        0 <= index_at(n, k) < vertex_count(n),
        index_at(n, k) / face_vertex_count(n) == k / face_index_count(n),
        index_at(n, k) % face_vertex_count(n) == local_index(n, k % face_index_count(n)),
{
    lemma_counts_fit(n);
    let corners = face_index_count(n);
    let len = face_vertex_count(n);
    lemma_split(k, corners, 6);
    let f = k / corners;
    lemma_local_index(n, k % corners);
    lemma_block_place(len, f, local_index(n, k % corners));
    assert((f + 1) * len <= 6 * len) by (nonlinear_arith)
        requires
            f < 6,
            0 < len,
    ;
}

/// The three corners of a triangle belong to one face and to one cell of
/// it.
pub proof fn lemma_triangle_in_cell(n: int, t: int, i: int)
    requires
        is_resolution(n),
        0 <= t < index_count(n) / 3,
        0 <= i < 3,
    ensures
        0 <= 3 * t + i < index_count(n),
        (3 * t + i) / face_index_count(n) == (3 * t) / face_index_count(n),
        ((3 * t + i) % face_index_count(n)) / 6 == ((3 * t) % face_index_count(n)) / 6,
        ((3 * t + i) % face_index_count(n)) % 6 == ((3 * t) % face_index_count(n)) % 6 + i,
{
    lemma_counts_fit(n);
    let corners = face_index_count(n);
    let k = 3 * t;
    lemma_split(k, corners, 6);
    let f = k / corners;
    let j = k % corners;
    // `j` is a multiple of three below a multiple of three.
    assert(corners == 3 * (2 * face_cell_count(n)));
    assert(f * corners == 3 * (f * (2 * face_cell_count(n)))) by (nonlinear_arith)
        requires
            corners == 3 * (2 * face_cell_count(n)),
    ;
    assert(j % 3 == 0);
    assert(j + i < corners);
    lemma_fundamental_div_mod_converse(k + i, corners, f, j + i);
}

/// A mesh has as many lattice points and triangle corners as its
/// resolution says, the corners come in threes, and each names a lattice
/// point of the mesh.
pub proof fn lemma_layout_closed(mesh: MeshLayout, n: int)
    requires
        is_resolution(n),
        mesh.is_layout_of(n),
    ensures
        mesh.vertices@.len() == 6 * ((2 * n + 1) * (2 * n + 1)),
        mesh.indices@.len() == 6 * ((2 * n) * (2 * n)) * 6,
        mesh.is_closed(),
        forall|k: int|
            0 <= k < mesh.indices@.len() ==> #[trigger] mesh.indices@[k] == index_at(n, k),
{
    lemma_counts_fit(n);
    assert forall|k: int| 0 <= k < mesh.indices@.len() implies 0 <= #[trigger] mesh.indices@[k]
        < mesh.vertices@.len() && mesh.indices@[k] == index_at(n, k) by {
        lemma_index_in_face(n, k);
    }
}

/// The faces of a mesh follow each other in the fixed order of their
/// directions, whatever the resolution: the lattice point at place `k`
/// belongs to face `k / (2n + 1)²`, where it stands at place
/// `k % (2n + 1)²`, rows first.
pub proof fn lemma_layout_faces(mesh: MeshLayout, n: int, k: int)
    requires
        is_resolution(n),
        mesh.is_layout_of(n),
        0 <= k < mesh.vertices@.len(),
    ensures
        0 <= k / ((2 * n + 1) * (2 * n + 1)) < 6,
        mesh.vertices@[k].direction == Direction::at(k / ((2 * n + 1) * (2 * n + 1))),
        mesh.vertices@[k].direction.ordinal() == k / ((2 * n + 1) * (2 * n + 1)),
        mesh.vertices@[k].on_face(n),
        mesh.vertices@[k].slot(n) == k % ((2 * n + 1) * (2 * n + 1)),
{
    lemma_vertex_place(n, k);
}

/// No triangle of a mesh reaches across the edge between two faces: corner
/// `k` belongs to face `k / (6 (2n)²)`, and so does the lattice point that
/// it names.
pub proof fn lemma_layout_corner_face(mesh: MeshLayout, n: int, k: int)
    requires
        is_resolution(n),
        mesh.is_layout_of(n),
        0 <= k < mesh.indices@.len(),
    ensures
        0 <= mesh.indices@[k] < mesh.vertices@.len(),
        mesh.vertices@[mesh.indices@[k] as int].direction == Direction::at(
            k / (6 * ((2 * n) * (2 * n))),
        ),
{
    lemma_layout_closed(mesh, n);
    lemma_index_in_face(n, k);
    lemma_vertex_place(n, index_at(n, k));
}

/// Two meshes of one resolution hold the same lattice points and the same
/// triangles, in the same order.
pub proof fn lemma_layout_unique(first: MeshLayout, second: MeshLayout, n: int)
    requires
        first.is_layout_of(n),
        second.is_layout_of(n),
    ensures
        first.vertices@ == second.vertices@,
        first.indices@ == second.indices@,
{
}

} // verus!
