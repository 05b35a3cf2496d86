//! The resolutions that a mesh can be laid out for, and how much such a
//! mesh holds.

use vstd::prelude::*;
use crate::lattice::{
    face_cell_count, face_index_count, face_vertex_count, index_count, side, vertex_count,
};

verus! {

/// The greatest resolution whose mesh can name every lattice point by a
/// `u32`.
pub const MAX_RESOLUTION: u32 = 13376;

/// Why a resolution was turned down.
#[derive(Clone, Copy, Debug, PartialEq, Eq, Structural)]
pub enum GridError {
    /// The resolution is zero: a face would have no cell.
    ZeroResolution,
    /// The resolution is above [`MAX_RESOLUTION`]: a `u32` could not name
    /// every lattice point.
    ResolutionTooLarge,
}

/// Why a grid of this resolution cannot be had, if it cannot.
pub open spec fn resolution_error(resolution: int) -> Option<GridError> {
    if resolution == 0 {
        Some(GridError::ZeroResolution)
    } else if resolution > MAX_RESOLUTION {
        Some(GridError::ResolutionTooLarge)
    } else {
        None
    }
}

/// Whether `n` is the resolution of a grid.
pub open spec fn is_resolution(n: int) -> bool {
    1 <= n <= MAX_RESOLUTION
}

/// One face of a mesh that can be held has well under a `u32` of lattice
/// points, and so have the six together.
pub proof fn lemma_counts_fit(n: int)
    by (nonlinear_arith)
    requires
        is_resolution(n),
    ensures
        0 < face_cell_count(n) < face_vertex_count(n) <= 715_723_009,
        vertex_count(n) <= u32::MAX,
        face_index_count(n) <= u32::MAX,
        index_count(n) <= u64::MAX,
{
}

/// The numbers of lattice points and of triangle corners, by the
/// resolution: a face has `(2n + 1)²` lattice points and `2 (2n)²`
/// triangles, and the mesh has six faces. The corners come in threes, in
/// each face and so in the mesh.
pub proof fn lemma_counts(n: int)
    requires
        0 <= n,
    ensures
        face_vertex_count(n) == (2 * n + 1) * (2 * n + 1),
        face_index_count(n) == 3 * (2 * ((2 * n) * (2 * n))),
        vertex_count(n) == 6 * ((2 * n + 1) * (2 * n + 1)),
        index_count(n) == 6 * ((2 * n) * (2 * n)) * 6,
        face_index_count(n) % 3 == 0,
        index_count(n) % 3 == 0,
{
}

/// A finer grid has more lattice points and more triangles.
pub proof fn lemma_counts_grow(n: int, m: int)
    requires
        0 <= n < m,
    ensures
        vertex_count(n) < vertex_count(m),
        index_count(n) < index_count(m),
{
    assert((2 * n + 1) * (2 * n + 1) < (2 * m + 1) * (2 * m + 1) && (2 * n) * (2 * n) < (2 * m)
        * (2 * m)) by (nonlinear_arith)
        requires
            0 <= n < m,
    ;
}

/// A resolution that a mesh can be laid out for: at least one, and at most
/// [`MAX_RESOLUTION`].
#[derive(Clone, Copy, Debug, PartialEq, Eq)]
pub struct Grid {
    resolution: u32,
}

impl View for Grid {
    type V = int;

    /// The resolution.
    closed spec fn view(&self) -> int {
        self.resolution as int
    }
}

impl Grid {
    #[verifier::type_invariant]
    spec fn in_range(self) -> bool {
        1 <= self.resolution <= MAX_RESOLUTION
    }

    /// The grid of the given resolution, or why there is none.
    pub fn new(resolution: u32) -> (made: Result<Grid, GridError>)
        ensures
            match resolution_error(resolution as int) {
                Some(error) => made == Err::<Grid, GridError>(error),
                None => made matches Ok(grid) && grid@ == resolution && is_resolution(grid@),
            },
    {
        if resolution == 0 {
            Err(GridError::ZeroResolution)
        } else if resolution > MAX_RESOLUTION {
            Err(GridError::ResolutionTooLarge)
        } else {
            Ok(Grid { resolution })
        }
    }

    /// The resolution: how many lattice steps lie between the centre of a
    /// face and its edge.
    pub fn resolution(&self) -> (n: u32)
        ensures
            n == self@,
            1 <= n <= MAX_RESOLUTION,
    {
        proof {
            use_type_invariant(self);
        }
        self.resolution
    }

    /// The number of lattice points along one side of a face.
    pub fn side(&self) -> (count: u32)
        ensures
            count == side(self@),
    {
        proof {
            use_type_invariant(self);
        }
        2 * self.resolution + 1
    }

    /// The number of lattice points of one face.
    pub fn face_vertex_count(&self) -> (count: u32)
        ensures
            count == face_vertex_count(self@),
    {
        proof {
            use_type_invariant(self);
            lemma_counts_fit(self@);
        }
        let side: u32 = 2 * self.resolution + 1;
        side * side
    }

    /// The number of triangle corners of one face.
    pub fn face_index_count(&self) -> (count: u32)
        ensures
            count == face_index_count(self@),
    {
        proof {
            use_type_invariant(self);
            lemma_counts_fit(self@);
        }
        let cells_per_side: u32 = 2 * self.resolution;
        6 * (cells_per_side * cells_per_side)
    }

    /// The number of lattice points of the whole mesh.
    pub fn vertex_count(&self) -> (count: u32)
        ensures
            count == vertex_count(self@),
    {
        proof {
            use_type_invariant(self);
            lemma_counts_fit(self@);
        }
        6 * self.face_vertex_count()
    }

    /// The number of triangle corners of the whole mesh.
    pub fn index_count(&self) -> (count: u64)
        ensures
            count == index_count(self@),
    {
        proof {
            use_type_invariant(self);
            lemma_counts_fit(self@);
        }
        6 * (self.face_index_count() as u64)
    }
}

} // verus!
