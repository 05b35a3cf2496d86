//! The sense in which the corners of every triangle run.
//!
//! The corners of each triangle are named counterclockwise for an eye that
//! looks at the cube from outside. Measured on the cube, in lattice steps,
//! this is exact: the vector product of the two edges that leave the first
//! corner is the outward normal of the face, whatever the face and the cell.

use vstd::prelude::*;
use crate::basis::lemma_axes;
use crate::direction::Direction;
use crate::lattice::{
    face_cell_count, face_index_count, index_count, lemma_cube_position, lemma_point_on_cube,
    lemma_split, LatticePoint,
};
use crate::grid::{is_resolution, lemma_counts_fit};
use crate::mesh::{index_at, vertex_at, MeshLayout};
use crate::topology::{
    cell_column, cell_row, corner_column_step, corner_row_step, lemma_face_vertex,
    lemma_index_in_face, lemma_layout_closed, lemma_local_index, lemma_triangle_in_cell,
};
use crate::vector::{lemma_triple_from_edges, lemma_unit_products};

verus! {

/// The face that triangle `t` of a mesh belongs to.
pub open spec fn triangle_face(n: int, t: int) -> Direction {
    Direction::at((3 * t) / face_index_count(n))
}

/// The cell of its face that triangle `t` of a mesh belongs to.
pub open spec fn triangle_cell(n: int, t: int) -> int {
    ((3 * t) % face_index_count(n)) / 6
}

/// The lattice point at corner `i` of triangle `t` of a mesh.
pub open spec fn triangle_corner(n: int, t: int, i: int) -> LatticePoint {
    vertex_at(n, index_at(n, 3 * t + i))
}

/// The lattice point of a face that lies `row_step` rows below and
/// `column_step` columns behind the first corner of cell `c`.
pub open spec fn cell_corner(
    direction: Direction,
    n: int,
    c: int,
    row_step: int,
    column_step: int,
) -> LatticePoint {
    LatticePoint {
        direction,
        a: (cell_column(n, c) + column_step - n) as i64,
        b: (cell_row(n, c) + row_step - n) as i64,
    }
}

/// The corners of every triangle, by row and column. The even triangles are
/// the first of their cells: they join the cell's first corner, the next in
/// its row, and the one across. The odd triangles are the second of their
/// cells: they join the cell's first corner, the one across, and the one
/// below the first.
pub proof fn lemma_triangle_corners(n: int, t: int)
    requires
        is_resolution(n),
        0 <= t < index_count(n) / 3,
    ensures
        0 <= cell_row(n, triangle_cell(n, t)) < 2 * n,
        0 <= cell_column(n, triangle_cell(n, t)) < 2 * n,
        triangle_corner(n, t, 0) == cell_corner(triangle_face(n, t), n, triangle_cell(n, t), 0, 0),
        t % 2 == 0 ==> triangle_corner(n, t, 1) == cell_corner(
            triangle_face(n, t),
            n,
            triangle_cell(n, t),
            0,
            1,
        ),
        t % 2 == 0 ==> triangle_corner(n, t, 2) == cell_corner(
            triangle_face(n, t),
            n,
            triangle_cell(n, t),
            1,
            1,
        ),
        t % 2 == 1 ==> triangle_corner(n, t, 1) == cell_corner(
            triangle_face(n, t),
            n,
            triangle_cell(n, t),
            1,
            1,
        ),
        t % 2 == 1 ==> triangle_corner(n, t, 2) == cell_corner(
            triangle_face(n, t),
            n,
            triangle_cell(n, t),
            1,
            0,
        ),
{
    let corners = face_index_count(n);
    let d = triangle_face(n, t);
    let c = triangle_cell(n, t);
    let first = (3 * t) % corners;
    lemma_triangle_in_cell(n, t, 0);
    assert(first % 6 == 3 * (t % 2)) by {
        lemma_counts_fit(n);
        lemma_split(3 * t, corners, 6);
        let f = (3 * t) / corners;
        assert(f * corners == 6 * (f * face_cell_count(n))) by (nonlinear_arith)
            requires
                corners == 6 * face_cell_count(n),
        ;
    }
    assert forall|i: int| 0 <= i < 3 implies #[trigger] triangle_corner(n, t, i) == cell_corner(
        d,
        n,
        c,
        corner_row_step(first % 6 + i),
        corner_column_step(first % 6 + i),
    ) by {
        let k = 3 * t + i;
        lemma_triangle_in_cell(n, t, i);
        lemma_index_in_face(n, k);
        lemma_local_index(n, k % corners);
        lemma_face_vertex(
            d,
            n,
            cell_row(n, c) + corner_row_step(first % 6 + i),
            cell_column(n, c) + corner_column_step(first % 6 + i),
        );
    }
    lemma_local_index(n, first);
    assert(triangle_corner(n, t, 0) == cell_corner(d, n, c, 0, 0));
    assert(triangle_corner(n, t, 1) == cell_corner(
        d,
        n,
        c,
        corner_row_step(first % 6 + 1),
        corner_column_step(first % 6 + 1),
    ));
    assert(triangle_corner(n, t, 2) == cell_corner(
        d,
        n,
        c,
        corner_row_step(first % 6 + 2),
        corner_column_step(first % 6 + 2),
    ));
}

/// Every triangle of every face is wound the same way: counterclockwise
/// for an eye outside the cube.
///
/// With `u`, `v`, `w` the places of its corners on the cube, the vector
/// product of the edges `v - u` and `w - u` is the outward normal of the
/// triangle's face. That vector has the scalar product `n` with each of the
/// three corners, so it points away from the origin at every corner, and
/// the determinant of the three corners is `n`, which is positive.
pub proof fn lemma_winding(n: int, t: int)
    requires
        is_resolution(n),
        0 <= t < index_count(n) / 3,
    ensures
        ({
            let u = triangle_corner(n, t, 0).cube_position(n);
            let v = triangle_corner(n, t, 1).cube_position(n);
            let w = triangle_corner(n, t, 2).cube_position(n);
            let normal = v.minus(u).cross(w.minus(u));
            &&& normal == triangle_face(n, t).normal()
            &&& normal.dot(u) == n
            &&& normal.dot(v) == n
            &&& normal.dot(w) == n
            &&& u.triple(v, w) == n
            &&& n > 0
        }),
{
    let d = triangle_face(n, t);
    let c = triangle_cell(n, t);
    lemma_triangle_corners(n, t);
    let c0 = triangle_corner(n, t, 0);
    let c1 = triangle_corner(n, t, 1);
    let c2 = triangle_corner(n, t, 2);
    let u = c0.cube_position(n);
    let v = c1.cube_position(n);
    let w = c2.cube_position(n);
    lemma_cube_position(c0, n);
    lemma_cube_position(c1, n);
    lemma_cube_position(c2, n);
    lemma_point_on_cube(c0, n);
    lemma_point_on_cube(c1, n);
    lemma_point_on_cube(c2, n);
    lemma_axes(d);
    lemma_unit_products();
    let normal = v.minus(u).cross(w.minus(u));
    assert(normal == d.normal());
    lemma_triple_from_edges(u, v, w);
    assert(d.normal().dot(u) == u.dot(d.normal()));
    assert(d.normal().dot(v) == v.dot(d.normal()));
    assert(d.normal().dot(w) == w.dot(d.normal()));
}

/// Every triangle of a mesh is wound counterclockwise for an eye outside
/// the cube, on all six faces alike.
///
/// The three corners of a triangle belong to one face. With `u`, `v`,
/// `w` their places on the cube, the vector product of the edges `v - u`
/// and `w - u` is the outward normal of that face. Its scalar product
/// with each corner is `n`, so at each corner it points away from the
/// origin, and the determinant of the three corners is `n`: the same
/// positive number for every triangle.
pub proof fn lemma_layout_winding(mesh: MeshLayout, n: int, t: int)
    requires
        is_resolution(n),
        mesh.is_layout_of(n),
        0 <= t < mesh.indices@.len() / 3,
    ensures
        mesh.corner(t, 1).direction == mesh.corner(t, 0).direction,
        mesh.corner(t, 2).direction == mesh.corner(t, 0).direction,
        ({
            let u = mesh.corner(t, 0).cube_position(n);
            let v = mesh.corner(t, 1).cube_position(n);
            let w = mesh.corner(t, 2).cube_position(n);
            let normal = v.minus(u).cross(w.minus(u));
            &&& normal == mesh.corner(t, 0).direction.normal()
            &&& normal.dot(u) == n
            &&& normal.dot(v) == n
            &&& normal.dot(w) == n
            &&& u.triple(v, w) == n
            &&& n > 0
        }),
{
    lemma_layout_closed(mesh, n);
    assert forall|i: int| 0 <= i < 3 implies #[trigger] mesh.corner(t, i) == triangle_corner(
        n,
        t,
        i,
    ) by {
        lemma_triangle_in_cell(n, t, i);
        lemma_index_in_face(n, 3 * t + i);
    }
    assert(mesh.corner(t, 0) == triangle_corner(n, t, 0));
    assert(mesh.corner(t, 1) == triangle_corner(n, t, 1));
    assert(mesh.corner(t, 2) == triangle_corner(n, t, 2));
    lemma_triangle_corners(n, t);
    lemma_winding(n, t);
}

} // verus!
