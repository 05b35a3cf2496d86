//! The indexed mesh of the six faces: which lattice points it holds, in what
//! order, and which triples of them are its triangles.

use vstd::prelude::*;
use vstd::arithmetic::div_mod::lemma_fundamental_div_mod_converse;
use crate::direction::{Direction, FACE_COUNT};
use crate::grid::{
    is_resolution, lemma_counts_fit, resolution_error, Grid, GridError, MAX_RESOLUTION,
};
use crate::lattice::{
    face_cell_count, face_index_count, face_vertex, face_vertex_count, index_count,
    lemma_block_place, lemma_walk_place, side, vertex_count, LatticePoint,
};
use crate::topology::lemma_layout_closed;

verus! {

/// How far the corner that the `j`-th index of a cell names lies behind the
/// cell's first corner, in places of the face's lattice.
///
/// A cell has the corners `first`, `first + 1` in its own row and
/// `first + side`, `first + side + 1` in the next row. Its two triangles
/// are `(first, first + 1, first + side + 1)` and
/// `(first, first + side + 1, first + side)`: both run counterclockwise for
/// an eye outside the cube.
pub open spec fn corner_offset(n: int, j: int) -> int {
    if j == 0 || j == 3 {
        0
    } else if j == 1 {
        1
    } else if j == 2 || j == 4 {
        side(n) + 1
    } else {
        side(n)
    }
}

/// The place in its face of the first corner of cell `c`. The cells of a
/// face are counted rows first, and there is none behind the last column
/// nor below the last row.
pub open spec fn cell_first_corner(n: int, c: int) -> int {
    (c / (2 * n)) * side(n) + c % (2 * n)
}

/// The `j`-th triangle corner of a face, as a place in that face's lattice.
pub open spec fn local_index(n: int, j: int) -> int {
    cell_first_corner(n, j / 6) + corner_offset(n, j % 6)
}

/// The lattice points of the face that looks in `direction`, rows first.
pub open spec fn face_vertices(direction: Direction, n: int) -> Seq<LatticePoint> {
    Seq::new(face_vertex_count(n) as nat, |k: int| face_vertex(direction, n, k))
}

/// The triangle corners of a face whose first lattice point stands at place
/// `base` of the mesh.
pub open spec fn face_indices(base: int, n: int) -> Seq<u32> {
    Seq::new(face_index_count(n) as nat, |j: int| (base + local_index(n, j)) as u32)
}

/// The lattice point at place `k` of a mesh of resolution `n`: the faces
/// follow each other in the fixed order of their directions.
pub open spec fn vertex_at(n: int, k: int) -> LatticePoint {
    face_vertex(Direction::at(k / face_vertex_count(n)), n, k % face_vertex_count(n))
}

/// The `k`-th triangle corner of a mesh of resolution `n`, as a place among
/// the mesh's lattice points.
pub open spec fn index_at(n: int, k: int) -> int {
    (k / face_index_count(n)) * face_vertex_count(n) + local_index(n, k % face_index_count(n))
}

/// The lattice points and the triangles of a cube's six faces.
#[derive(Clone, Debug, PartialEq, Eq)]
pub struct MeshLayout {
    /// The lattice points, face after face.
    pub vertices: Vec<LatticePoint>,
    /// The triangle corners, three to a triangle, each the place of a
    /// lattice point in `vertices`.
    pub indices: Vec<u32>,
}

impl MeshLayout {
    /// Whether the triangle corners come in threes and each of them names
    /// a lattice point of the mesh.
    pub open spec fn is_closed(self) -> bool {
        &&& self.indices@.len() % 3 == 0
        &&& forall|k: int|
            0 <= k < self.indices@.len() ==> 0 <= #[trigger] self.indices@[k]
                < self.vertices@.len()
    }

    /// The lattice point at corner `i` of triangle `t`.
    pub open spec fn corner(self, t: int, i: int) -> LatticePoint {
        self.vertices@[self.indices@[3 * t + i] as int]
    }

    /// Whether this is the mesh of resolution `n`.
    pub open spec fn is_layout_of(self, n: int) -> bool {
        &&& self.vertices@ == Seq::new(vertex_count(n) as nat, |k: int| vertex_at(n, k))
        &&& self.indices@ == Seq::new(index_count(n) as nat, |k: int| index_at(n, k) as u32)
    }
}

/// How many cells have been written out when the walk over a face's
/// lattice, rows first, reaches the point in row `row` and column `col`.
spec fn cells_before(n: int, row: int, col: int) -> int {
    if row < 2 * n {
        row * (2 * n) + if col < 2 * n {
            col
        } else {
            2 * n
        }
    } else {
        face_cell_count(n)
    }
}

/// The side of a face whose points can be counted in a `u32` is short.
proof fn lemma_side_is_short(n: int)
    by (nonlinear_arith)
    requires
        0 <= n,
        face_vertex_count(n) <= u32::MAX,
    ensures
        side(n) <= 0xffff,
{
}

/// The cell in row `row` and column `col` is cell `row * 2n + col`. Its
/// first corner is the lattice point at place `row * (2n + 1) + col` of the
/// face, and its last corner, one row below and one column behind, is a
/// lattice point of the face too.
pub proof fn lemma_cell_place(n: int, row: int, col: int)
    requires
        0 <= row < 2 * n,
        0 <= col < 2 * n,
    ensures
        0 <= row * (2 * n) + col < face_cell_count(n),
        cell_first_corner(n, row * (2 * n) + col) == row * side(n) + col,
        (row + 1) * (2 * n) == row * (2 * n) + 2 * n,
        (row + 1) * side(n) + col + 1 < face_vertex_count(n),
{
    let w = 2 * n;
    let s = side(n);
    assert(0 <= row * w && row * w + w <= w * w && (row + 1) * w == row * w + w)
        by (nonlinear_arith)
        requires
            0 <= row < w,
    ;
    assert((row + 1) * s <= w * s && s * s == w * s + s) by (nonlinear_arith)
        requires
            0 <= row < w,
            s == w + 1,
    ;
    lemma_fundamental_div_mod_converse(row * w + col, w, row, col);
}

/// Lays out the face that looks in `direction`, behind whatever the mesh
/// holds already.
///
/// The lattice points of the face are appended to `vertices`, rows first,
/// and its triangle corners to `indices`, each naming a lattice point by its
/// place in `vertices`. The mesh must have room left: an index is a `u32`.
pub fn add_face(
    vertices: &mut Vec<LatticePoint>,
    indices: &mut Vec<u32>,
    resolution: u32,
    direction: Direction,
)
    requires
        old(vertices).len() + face_vertex_count(resolution as int) <= u32::MAX,
    ensures
        final(vertices)@ == old(vertices)@ + face_vertices(direction, resolution as int),
        final(indices)@ == old(indices)@ + face_indices(
            old(vertices).len() as int,
            resolution as int,
        ),
{
    let ghost n = resolution as int;
    let ghost s = side(n);
    let ghost held_vertices = vertices@;
    let ghost held_indices = indices@;
    let ghost base = vertices.len() as int;
    proof {
        lemma_side_is_short(n);
    }
    let res: i64 = resolution as i64;
    let offset: u32 = resolution * 2;
    let mut b: i64 = -res;
    assert((b + n) * s == 0) by (nonlinear_arith)
        requires
            b + n == 0,
    ;
    while b <= res
        invariant
            n == resolution,
            s == side(n),
            res == n,
            offset == 2 * n,
            s <= 0xffff,
            base == held_vertices.len(),
            base + face_vertex_count(n) <= u32::MAX,
            -res <= b <= res + 1,
            vertices@.len() == base + (b + n) * s,
            vertices@.subrange(0, base) == held_vertices,
            forall|k: int|
                0 <= k < (b + n) * s ==> #[trigger] vertices@[base + k] == face_vertex(
                    direction,
                    n,
                    k,
                ),
            indices@.len() == held_indices.len() + 6 * cells_before(n, b + n, 0),
            indices@.subrange(0, held_indices.len() as int) == held_indices,
            forall|j: int|
                0 <= j < 6 * cells_before(n, b + n, 0) ==> #[trigger] indices@[held_indices.len()
                    + j] == (base + local_index(n, j)) as u32,
        decreases res + 1 - b,
    {
        let mut a: i64 = -res;
        proof {
            if b + n < s {
                lemma_walk_place(n, b + n, 0);
            }
        }
        while a <= res
            invariant
                n == resolution,
                s == side(n),
                res == n,
                offset == 2 * n,
                s <= 0xffff,
                base == held_vertices.len(),
                base + face_vertex_count(n) <= u32::MAX,
                -res <= b <= res,
                -res <= a <= res + 1,
                vertices@.len() == base + (b + n) * s + (a + n),
                vertices@.subrange(0, base) == held_vertices,
                forall|k: int|
                    0 <= k < (b + n) * s + (a + n) ==> #[trigger] vertices@[base + k]
                        == face_vertex(direction, n, k),
                indices@.len() == held_indices.len() + 6 * cells_before(n, b + n, a + n),
                indices@.subrange(0, held_indices.len() as int) == held_indices,
                forall|j: int|
                    0 <= j < 6 * cells_before(n, b + n, a + n) ==> #[trigger] indices@[held_indices.len()
                        + j] == (base + local_index(n, j)) as u32,
            decreases res + 1 - a,
        {
            proof {
                lemma_walk_place(n, b + n, a + n);
            }
            let ghost place = (b + n) * s + (a + n);
            let ghost seen_vertices = vertices@;
            let triangle_start: u32 = vertices.len() as u32;
            vertices.push(LatticePoint { direction, a, b });
            assert(vertices@[base + place] == face_vertex(direction, n, place));
            assert forall|k: int| 0 <= k < place + 1 implies #[trigger] vertices@[base + k]
                == face_vertex(direction, n, k) by {
                if k < place {
                    assert(vertices@[base + k] == seen_vertices[base + k]);
                }
            }
            assert(vertices@.subrange(0, base) == seen_vertices.subrange(0, base));
            if b != res && a != res {
                let ghost cell = (b + n) * (2 * n) + (a + n);
                let ghost seen_indices = indices@;
                let ghost held = held_indices.len() as int;
                proof {
                    lemma_cell_place(n, b + n, a + n);
                }
                indices.push(triangle_start);
                indices.push(triangle_start + 1);
                indices.push(triangle_start + offset + 2);
                indices.push(triangle_start);
                indices.push(triangle_start + offset + 2);
                indices.push(triangle_start + offset + 1);
                assert(indices@.subrange(0, held) == seen_indices.subrange(0, held));
                assert forall|j: int| 0 <= j < 6 * (cell + 1) implies #[trigger] indices@[held + j]
                    == (base + local_index(n, j)) as u32 by {
                    if j < 6 * cell {
                        assert(indices@[held + j] == seen_indices[held + j]);
                    } else {
                        assert(j / 6 == cell);
                        assert(cell_first_corner(n, j / 6) == place);
                    }
                }
            }
            a = a + 1;
        }
        proof {
            lemma_walk_place(n, b + n, 2 * n);
            if b + n < 2 * n {
                lemma_cell_place(n, b + n, 0);
            }
        }
        b = b + 1;
    }
    proof {
        assert((2 * n + 1) * s == face_vertex_count(n));
        assert(vertices@ =~= held_vertices + face_vertices(direction, n)) by {
            assert forall|k: int| 0 <= k < vertices@.len() implies vertices@[k] == (held_vertices
                + face_vertices(direction, n))[k] by {
                if k < base {
                    assert(vertices@[k] == vertices@.subrange(0, base)[k]);
                } else {
                    assert(vertices@[base + (k - base)] == face_vertex(direction, n, k - base));
                }
            }
        }
        let held = held_indices.len() as int;
        assert(indices@ =~= held_indices + face_indices(base, n)) by {
            assert forall|j: int| 0 <= j < indices@.len() implies indices@[j] == (held_indices
                + face_indices(base, n))[j] by {
                if j < held {
                    assert(indices@[j] == indices@.subrange(0, held)[j]);
                } else {
                    assert(indices@[held + (j - held)] == (base + local_index(n, j - held)) as u32);
                }
            }
        }
    }
}

impl Grid {
    /// Lays out the mesh of this grid: the six faces in the fixed order of
    /// their directions, each with its lattice points and its triangles.
    pub fn layout(&self) -> (mesh: MeshLayout)
        ensures
            is_resolution(self@),
            mesh.is_layout_of(self@),
            mesh.is_closed(),
            mesh.vertices@.len() == vertex_count(self@),
            mesh.indices@.len() == index_count(self@),
    {
        let resolution: u32 = self.resolution();
        let ghost n = resolution as int;
        let ghost per_face = face_vertex_count(n);
        let ghost corners = face_index_count(n);
        proof {
            lemma_counts_fit(n);
            assert(0 * per_face == 0 && 0 * corners == 0) by (nonlinear_arith);
        }
        let directions = Direction::all();
        let mut vertices: Vec<LatticePoint> = Vec::new();
        let mut indices: Vec<u32> = Vec::new();
        let mut face: usize = 0;
        while face < FACE_COUNT
            invariant
                0 <= face <= 6,
                n == resolution,
                1 <= n <= MAX_RESOLUTION,
                per_face == face_vertex_count(n),
                corners == face_index_count(n),
                0 < per_face <= 715_723_009,
                0 < corners,
                forall|i: int| 0 <= i < 6 ==> directions[i] == Direction::at(i),
                vertices@ == Seq::new((face * per_face) as nat, |k: int| vertex_at(n, k)),
                indices@ == Seq::new((face * corners) as nat, |k: int| index_at(n, k) as u32),
            decreases 6 - face,
        {
            let ghost base = face * per_face;
            let ghost held = face * corners;
            proof {
                lemma_block_place(per_face, face as int, 0);
                lemma_block_place(corners, face as int, 0);
                assert(base <= 5 * per_face) by (nonlinear_arith)
                    requires
                        base == face * per_face,
                        0 <= face <= 5,
                        0 < per_face,
                ;
            }
            add_face(&mut vertices, &mut indices, resolution, directions[face]);
            proof {
                assert(vertices@ =~= Seq::new(((face + 1) * per_face) as nat, |k: int| vertex_at(n, k)))
                    by {
                    assert forall|k: int| base <= k < base + per_face implies vertices@[k]
                        == vertex_at(n, k) by {
                        lemma_block_place(per_face, face as int, k - base);
                    }
                }
                assert(indices@ =~= Seq::new(
                    ((face + 1) * corners) as nat,
                    |k: int| index_at(n, k) as u32,
                )) by {
                    assert forall|k: int| held <= k < held + corners implies indices@[k] == index_at(
                        n,
                        k,
                    ) as u32 by {
                        lemma_block_place(corners, face as int, k - held);
                    }
                }
            }
            face = face + 1;
        }
        let mesh = MeshLayout { vertices, indices };
        proof {
            lemma_layout_closed(mesh, n);
        }
        mesh
    }
}

/// Lays out the mesh of the given resolution, or says why there is none.
///
/// Nothing is laid out for a resolution that is turned down.
pub fn generate(resolution: u32) -> (made: Result<MeshLayout, GridError>)
    ensures
        match resolution_error(resolution as int) {
            Some(error) => made == Err::<MeshLayout, GridError>(error),
            None => {
                &&& made matches Ok(mesh)
                &&& mesh.is_layout_of(resolution as int)
                &&& mesh.is_closed()
                &&& mesh.vertices@.len() == vertex_count(resolution as int)
                &&& mesh.indices@.len() == index_count(resolution as int)
            },
        },
{
    match Grid::new(resolution) {
        Ok(grid) => Ok(grid.layout()),
        Err(error) => Err(error),
    }
}

} // verus!
