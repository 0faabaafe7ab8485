//! A verified description of a small physics demo scene: a static ground
//! slab, a dynamic drone-shaped rigid body assembled from box and cylinder
//! colliders, and a free-look camera. The engine and physics plugin that
//! consume the description live outside this crate; here the scene itself is
//! stated and proved, down to every dimension, offset and body modifier.
//!
//! Lengths, scales and force components are fixed-point values counted in
//! thousandths of a world unit, so `750` stands for three quarters of a unit.

pub mod report;
pub mod scene;
