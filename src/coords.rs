//! Conversions between voxel coordinates and flat storage indices.
//!
//! A chunk is 16 wide (x), 128 high (y) and 16 deep (z). The flat index of a
//! voxel is `x * 2048 + z * 128 + y`, so the 128 voxels of one column lie next
//! to each other. A column of the heightmap has the flat index `x * 16 + z`.
//!
//! Coordinates are not checked against the chunk's bounds: outside them the
//! index is still computed, modulo the width of the index type, and may alias
//! another voxel.

use cgmath::Vector3;
use vstd::prelude::*;

verus! {

/// cgmath's `Vector3`, declared with its public fields `x`, `y` and `z` so that
/// verified code can read and build it.
#[verifier::external_type_specification]
#[verifier::reject_recursive_types(S)]
pub struct ExVector3<S>(Vector3<S>);

/// Width of a chunk along x and along z.
pub const CHUNK_WIDTH: u16 = 16;

/// Height of a chunk along y.
pub const CHUNK_HEIGHT: u16 = 128;

/// Flat-index stride of the x coordinate (one vertical slice of 16 columns).
pub const X_STRIDE: u16 = 2048;

/// Number of voxels in a chunk.
pub const VOXEL_COUNT: usize = 32768;

/// Number of columns in a chunk, the length of its heightmap.
pub const COLUMN_COUNT: usize = 256;

/// Whether (x, y, z) lies inside the chunk.
pub open spec fn in_voxel_bounds(x: u8, y: u8, z: u8) -> bool {
    x < 16 && y < 128 && z < 16
}

/// Whether (x, z) names a column of the chunk.
pub open spec fn in_column_bounds(x: u8, z: u8) -> bool {
    x < 16 && z < 16
}

/// The flat index of (x, y, z), modulo 2^16.
pub open spec fn voxel_index(x: u8, y: u8, z: u8) -> u16 {
    ((x * 2048 + z * 128 + y) % 65536) as u16
}

/// The coordinates (x, y, z) that a flat voxel index stands for.
pub open spec fn voxel_position(i: u16) -> (u8, u8, u8) {
    ((i / 2048) as u8, (i % 128) as u8, ((i / 128) % 16) as u8)
}

/// The flat index of the voxel at vector position `v`, modulo 2^16.
pub open spec fn vector_index(v: Vector3<u8>) -> u16 {
    voxel_index(v.x, v.y, v.z)
}

/// The vector position that a flat voxel index stands for.
pub open spec fn index_vector(i: u16) -> Vector3<u8> {
    Vector3 { x: voxel_position(i).0, y: voxel_position(i).1, z: voxel_position(i).2 }
}

/// The heightmap index of column (x, z), modulo 2^8.
pub open spec fn column_index(x: u8, z: u8) -> u8 {
    ((x * 16 + z) % 256) as u8
}

/// The column (x, z) that a heightmap index stands for.
pub open spec fn column_position(i: u8) -> (u8, u8) {
    ((i / 16) as u8, (i % 16) as u8)
}

/// Converts x, y, z coordinates into a flat voxel index. Coordinates outside
/// the chunk are not rejected: their index wraps modulo 2^16.
pub fn pos_to_index(x: &u8, y: &u8, z: &u8) -> (r: u16)
    ensures
        r == voxel_index(*x, *y, *z),
        in_voxel_bounds(*x, *y, *z) ==> r == *x * 2048 + *z * 128 + *y,
{
    let x_wide: u32 = *x as u32;
    let y_wide: u32 = *y as u32;
    let z_wide: u32 = *z as u32;
    let wide: u32 = x_wide * 2048 + z_wide * 128 + y_wide;
    (wide % 65536) as u16
}

/// Converts a flat voxel index into x, y, z coordinates.
pub fn index_to_pos(i: &u16) -> (r: (u8, u8, u8))
    ensures
        r == voxel_position(*i),
{
    let mut index: u16 = *i;
    let x: u8 = (index / X_STRIDE) as u8;
    index = index % X_STRIDE;
    let z: u8 = (index / CHUNK_HEIGHT) as u8;
    index = index % CHUNK_HEIGHT;
    let y: u8 = index as u8;
    assert((*i % 2048) / 128 == (*i / 128) % 16) by (nonlinear_arith);
    assert((*i % 2048) % 128 == *i % 128) by (nonlinear_arith);
    (x, y, z)
}

/// Converts a vector position into a flat voxel index.
pub fn vector_pos_to_index(position: &Vector3<u8>) -> (r: u16)
    ensures
        r == vector_index(*position),
        in_voxel_bounds(position.x, position.y, position.z) ==> r == position.x * 2048
            + position.z * 128 + position.y,
{
    pos_to_index(&position.x, &position.y, &position.z)
}

/// Converts a flat voxel index into a vector position.
pub fn index_to_vector_pos(i: &u16) -> (r: Vector3<u8>)
    ensures
        r == index_vector(*i),
{
    let (x, y, z) = index_to_pos(i);
    Vector3 { x, y, z }
}

/// Converts column coordinates x, z into a heightmap index. Coordinates
/// outside the chunk are not rejected: their index wraps modulo 2^8.
pub fn heightmap_pos_to_index(x: &u8, z: &u8) -> (r: u8)
    ensures
        r == column_index(*x, *z),
        in_column_bounds(*x, *z) ==> r == *x * 16 + *z,
{
    let wide: u16 = (*x as u16) * CHUNK_WIDTH + (*z as u16);
    (wide % 256) as u8
}

/// Converts a heightmap index into column coordinates x, z.
pub fn heightmap_index_to_pos(i: &u8) -> (r: (u8, u8))
    ensures
        r == column_position(*i),
{
    let width: u8 = CHUNK_WIDTH as u8;
    let x: u8 = *i / width;
    let z: u8 = *i % width;
    (x, z)
}

/// Every flat voxel index converts to coordinates inside the chunk, and those
/// coordinates convert back to the same index.
pub proof fn lemma_voxel_index_round_trip(i: u16)
    requires
        i < 32768,
    ensures
        in_voxel_bounds(voxel_position(i).0, voxel_position(i).1, voxel_position(i).2),
        voxel_index(voxel_position(i).0, voxel_position(i).1, voxel_position(i).2) == i,
{
    let x = i / 2048;
    let y = i % 128;
    let z = (i / 128) % 16;
    assert(i == x * 2048 + z * 128 + y) by (nonlinear_arith)
        requires
            x == i / 2048,
            y == i % 128,
            z == (i / 128) % 16,
            0 <= i < 32768,
    ;
}

/// Every voxel inside the chunk has an index below the voxel count, and that
/// index converts back to the same coordinates: the conversions are a
/// bijection between the chunk's voxels and the indices below 32768.
pub proof fn lemma_voxel_position_round_trip(x: u8, y: u8, z: u8)
    requires
        in_voxel_bounds(x, y, z),
    ensures
        voxel_index(x, y, z) < 32768,
        voxel_position(voxel_index(x, y, z)) == (x, y, z),
{
    let i = x * 2048 + z * 128 + y;
    assert(i / 2048 == x && i % 128 == y && (i / 128) % 16 == z) by (nonlinear_arith)
        requires
            i == x * 2048 + z * 128 + y,
            0 <= x < 16,
            0 <= y < 128,
            0 <= z < 16,
    ;
}

/// The vector form and the tuple form of the conversions agree: an index
/// gives the same x, y, z either way, and the two positions convert back to
/// the same index.
pub proof fn lemma_vector_tuple_parity(i: u16)
    ensures
        index_vector(i).x == voxel_position(i).0,
        index_vector(i).y == voxel_position(i).1,
        index_vector(i).z == voxel_position(i).2,
        vector_index(index_vector(i)) == voxel_index(
            voxel_position(i).0,
            voxel_position(i).1,
            voxel_position(i).2,
        ),
        i < 32768 ==> vector_index(index_vector(i)) == i,
{
    if i < 32768 {
        lemma_voxel_index_round_trip(i);
    }
}

/// Every heightmap index converts to a column inside the chunk, and that
/// column converts back to the same index.
pub proof fn lemma_column_index_round_trip(i: u8)
    ensures
        in_column_bounds(column_position(i).0, column_position(i).1),
        column_index(column_position(i).0, column_position(i).1) == i,
{
}

/// Every column inside the chunk converts to an index that converts back to
/// the same column: the conversions are a bijection between the chunk's
/// columns and the 256 heightmap indices.
pub proof fn lemma_column_position_round_trip(x: u8, z: u8)
    requires
        in_column_bounds(x, z),
    ensures
        column_position(column_index(x, z)) == (x, z),
{
}

} // verus!
