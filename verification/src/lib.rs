//! A voxel world engine core: dense chunk storage, world coordinate mapping,
//! terrain column rules, face-culled meshing with ambient occlusion, collision
//! and ray queries against the voxel grid, and the texture atlas.
//!
//! Everything here works on integers. Quantities that a renderer or a physics
//! loop would hold as real numbers are kept in fixed point, with the unit named
//! by a constant next to the type that uses it.

pub mod block;
pub mod chunk;
pub mod mesh;
pub mod physics;
pub mod terrain;
pub mod texture;
pub mod world;
