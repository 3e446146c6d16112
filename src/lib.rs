//! A fixed-size voxel chunk: per-voxel block, rotation and light values and a
//! per-column heightmap, addressed by flat index or by coordinates.

pub mod coords;
pub mod chunk;
