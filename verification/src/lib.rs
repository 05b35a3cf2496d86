//! Topology of a cube-sphere mesh.
//!
//! A planet's surface is approximated by the six faces of a cube, each cut
//! into a square lattice whose points are later pushed out onto a sphere and
//! displaced by a height field. This crate holds the exact part of that
//! work: the six face directions and their tangent bases, the lattice of
//! each face, and the triangle indices that stitch the lattice points into
//! one indexed mesh. Everything is integer arithmetic, measured in lattice
//! steps, so that every statement about it is proved once and for all.

pub mod vector;
pub mod direction;
pub mod basis;
pub mod lattice;
pub mod grid;
pub mod mesh;
pub mod topology;
pub mod winding;
