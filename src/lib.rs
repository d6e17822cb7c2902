//! Shared object model of a rigid-body simulation: generational entity
//! handles stored in a world arena, a tagged wrapper over the two entity
//! kinds with shared and exclusive borrowed views, and the constraint value
//! that a solver consumes.

pub mod constraint;
pub mod world;
pub mod world_object;
