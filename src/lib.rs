//! Composes a rigid-body physics scene from declarative body descriptions:
//! each top-level description becomes one rigid body, and the description
//! tree below it becomes that body's colliders.
pub mod geometry;
pub mod body;
pub mod world;
pub mod demo;
pub mod laws;
pub mod mass;
