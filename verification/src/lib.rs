//! Turns the surfaces of a building into indexed triangle meshes: walks the
//! building, lays each polygon out for a planar triangulation, checks what
//! the triangulation gives back, and gathers the fragments into meshes whose
//! indices stay within their vertices.

pub mod aggregator;
pub mod bucket;
pub mod building_points;
pub mod collector;
pub mod emit;
pub mod fragment;
pub mod grouping;
pub mod mesh;
pub mod model;
pub mod pipeline;
pub mod rings;
pub mod semantic_class;
pub mod translation;
