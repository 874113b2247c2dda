//! Isosurface extraction on a regular voxel grid by the Marching Cubes
//! algorithm.
//!
//! A scalar field, composed from signed-distance primitives, is sampled at
//! the corners of every cell of a dense grid; each cell is classified into
//! one of 256 corner-sign configurations; a precomputed table gives the
//! triangulation for that configuration; and vertices are emitted along the
//! active cube edges, either at edge midpoints or linearly interpolated
//! toward the isosurface crossing.
//!
//! All coordinates and field values are fixed-point integers: a real value
//! `v` is represented by the integer `v * SCALE`.  The modules:
//! [`geom`] holds points and the integer square root, [`field`] the
//! signed-distance primitives and their union, [`table`] the 256-entry
//! triangulation table with its corner tables, [`extract`] the scan
//! itself, and [`laws`] the once-and-for-all theorems about it.

pub mod extract;
pub mod field;
pub mod geom;
pub mod laws;
pub mod table;
