//! A verified core for a four-dimensional ray-traced scene viewer.
//!
//! The library models 4D rigid motions with a restricted geometric algebra:
//! [`rotor::Rotor`] represents a pure rotation (scalar, six bivector planes,
//! one quadvector), and [`motor::Transform`] a rotation combined with a
//! translation.  All coefficients are exact rationals, stored as integer
//! numerators over one shared positive denominator per value, so every
//! algebraic law of the composition operators holds exactly and is proved.
//!
//! On top of the algebra sit the verified parts of the rendering pipeline:
//! scene objects with optional group references, flattening of object tables
//! into GPU-ready records, the grow-only storage-buffer policy, render-target
//! sizing, and the per-view camera push-constant selection.  The GPU itself,
//! the windowing shell and all floating-point conversions live outside this
//! crate and hand plain values across the boundary.

pub mod assoc;
pub mod camera;
pub mod motor;
pub mod render;
pub mod rotor;
pub mod scene;
pub mod vec;

pub use motor::Transform;
pub use render::{RenderData, RenderState, RenderTarget, ViewAxes};
pub use rotor::Rotor;
