//! Turns building-floor outlines into meshes: a flat single-face mesh of the
//! outline, or a closed prism standing between a floor and a roof elevation.
//!
//! The coordinate type is a parameter: the meshing only copies coordinates
//! and works out 1-based face indices, so any `Copy` coordinate will do.

pub mod batch;
pub mod faces;
pub mod laws;
pub mod mesh;
pub mod point;

pub use point::{Elevations, Point, PointZ};
pub use mesh::{Floorplan2DMesh, Floorplan3DMesh};
pub use batch::{process_shapes, select_polygons};
