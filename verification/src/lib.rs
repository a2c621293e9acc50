//! Verified core of a forward 3D renderer.
//!
//! The crate models the data and the decisions of a depth-tested forward
//! rendering pipeline over plain values: a scene registry of models,
//! materials and object instances; texture and pipeline descriptions;
//! uniform-buffer encodings; and the per-frame protocol that turns a scene
//! into an ordered list of draw commands.  GPU scalars that are floating
//! point on the wire (matrix entries, colors, level-of-detail clamps) are
//! carried as their IEEE 754 bit patterns, so every encoding is exact and
//! every contract is provable.  A host is expected to interpret the plans
//! produced here against a real graphics device and window.

pub mod bits;
pub mod camera;
pub mod light;
pub mod mat4;
pub mod model;
pub mod renderer;
pub mod scene;
pub mod texture;
