//! Voxel-world core: coordinate algebra, chunk storage, face-culled meshing,
//! terrain population and the chunk streaming lifecycle.

pub mod settings;
pub mod coord;
pub mod block;
pub mod chunk;
pub mod mesh;
pub mod terrain;
pub mod table;
pub mod lifecycle;
pub mod point;
pub mod cube;
