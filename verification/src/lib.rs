//! Core logic of a small OBJ-mesh viewer: per-vertex normal synthesis with
//! bounding-extent tracking, the fit transform that recenters and scales a
//! model into view, the frame-presentation lifecycle state machine, and the
//! pointer-input sampling decisions.
//!
//! All geometry here is carried out in exact integer coordinates, since the
//! verifier does not take floating-point arithmetic; the rendering front end
//! owns the floating-point mirror of the mesh and drives the state machines
//! defined here.

pub mod fit;
pub mod geometry;
pub mod input;
pub mod lifecycle;
pub mod vk;
