//! A per-frame visibility culling engine.
//!
//! Given a camera's viewing frustum and a population of objects, each with a
//! bounding volume, a world position and a visibility flag, the engine marks
//! every object whose volume lies entirely outside the frustum as invisible
//! and every other object as visible.
//!
//! All geometry is carried in fixed-point integer coordinates (the embedding
//! application picks the scale), so every test the engine makes is exact and
//! verified: the six frustum planes are extracted from the world-space
//! corners of the camera's normalized-device-coordinate cube, and each shape
//! decides the half-space test against an unnormalized outward plane normal
//! without ever dividing or taking a square root.

pub mod vec3;
pub mod volume;
pub mod frustum;
pub mod culling;
pub mod laws;
