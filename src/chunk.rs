//! The chunk store: four dense arrays addressed through the conversions of
//! [`crate::coords`].

use cgmath::Vector3;
use vstd::prelude::*;

pub use crate::coords::{
    heightmap_index_to_pos, heightmap_pos_to_index, index_to_pos, index_to_vector_pos,
    pos_to_index, vector_pos_to_index,
};

use crate::coords::{
    column_index, index_vector, vector_index, voxel_index, voxel_position, COLUMN_COUNT,
    VOXEL_COUNT,
};
use crate::coords::{lemma_vector_tuple_parity, lemma_voxel_index_round_trip};

verus! {

/// One 16 x 128 x 16 region of a voxel world, at a fixed world position.
pub struct Chunk {
    position: [i64; 2],
    block: [u32; 32768],
    rotation: [u8; 32768],
    light: [u8; 32768],
    heightmap: [u8; 256],
}

/// The abstract contents of a chunk.
pub struct ChunkView {
    /// World position (x, z) of the chunk.
    pub position: (i64, i64),
    /// Block identifier of each voxel, by flat index.
    pub block: Seq<u32>,
    /// Rotation of each voxel, by flat index.
    pub rotation: Seq<u8>,
    /// Light level of each voxel, by flat index.
    pub light: Seq<u8>,
    /// Height of each column, by heightmap index.
    pub heightmap: Seq<u8>,
}

impl ChunkView {
    /// Every per-voxel sequence holds one value per voxel, and the heightmap
    /// one value per column.
    pub open spec fn wf(self) -> bool {
        &&& self.block.len() == VOXEL_COUNT
        &&& self.rotation.len() == VOXEL_COUNT
        &&& self.light.len() == VOXEL_COUNT
        &&& self.heightmap.len() == COLUMN_COUNT
    }
}

impl View for Chunk {
    type V = ChunkView;

    closed spec fn view(&self) -> ChunkView {
        ChunkView {
            position: (self.position[0], self.position[1]),
            block: self.block@,
            rotation: self.rotation@,
            light: self.light@,
            heightmap: self.heightmap@,
        }
    }
}

/// Creates a chunk at world position (x, z) with every value zero.
pub fn new(x: i64, z: i64) -> (r: Chunk)
    ensures
        r@.wf(),
        r@.position == (x, z),
        r@.block == Seq::new(VOXEL_COUNT as nat, |i: int| 0u32),
        r@.rotation == Seq::new(VOXEL_COUNT as nat, |i: int| 0u8),
        r@.light == Seq::new(VOXEL_COUNT as nat, |i: int| 0u8),
        r@.heightmap == Seq::new(COLUMN_COUNT as nat, |i: int| 0u8),
{
    let r = Chunk {
        position: [x, z],
        block: [0u32; 32768],
        rotation: [0u8; 32768],
        light: [0u8; 32768],
        heightmap: [0u8; 256],
    };
    assert(r@.block =~= Seq::new(VOXEL_COUNT as nat, |i: int| 0u32));
    assert(r@.rotation =~= Seq::new(VOXEL_COUNT as nat, |i: int| 0u8));
    assert(r@.light =~= Seq::new(VOXEL_COUNT as nat, |i: int| 0u8));
    assert(r@.heightmap =~= Seq::new(COLUMN_COUNT as nat, |i: int| 0u8));
    r
}

impl Chunk {
    /// The view of every chunk is well formed.
    pub proof fn lemma_wf(&self)
        ensures
            self@.wf(),
    {
    }

    /// Returns the chunk's world position (x, z).
    pub fn get_pos(&self) -> (r: (i64, i64))
        ensures
            r == self@.position,
    {
        (self.position[0], self.position[1])
    }

    /// Returns the block identifier at a flat voxel index.
    pub fn get_block_from_index(&self, index: &u16) -> (r: u32)
        requires
            *index < VOXEL_COUNT,
        ensures
            r == self@.block[*index as int],
    {
        self.block[*index as usize]
    }

    /// Returns the block identifier at coordinates x, y, z.
    pub fn get_block_from_position(&self, x: &u8, y: &u8, z: &u8) -> (r: u32)
        requires
            voxel_index(*x, *y, *z) < VOXEL_COUNT,
        ensures
            r == self@.block[voxel_index(*x, *y, *z) as int],
    {
        let this_index: usize = pos_to_index(x, y, z) as usize;
        self.block[this_index]
    }

    /// Returns the block identifier at a vector position.
    pub fn get_block_from_vector_position(&self, position: &Vector3<u8>) -> (r: u32)
        requires
            vector_index(*position) < VOXEL_COUNT,
        ensures
            r == self@.block[vector_index(*position) as int],
    {
        let this_index: usize = vector_pos_to_index(position) as usize;
        self.block[this_index]
    }

    /// Sets the block identifier at a flat voxel index.
    pub fn set_block_from_index(&mut self, index: &u16, block: &u32)
        requires
            *index < VOXEL_COUNT,
        ensures
            final(self)@.block == old(self)@.block.update(*index as int, *block),
            final(self)@.rotation == old(self)@.rotation,
            final(self)@.light == old(self)@.light,
            final(self)@.heightmap == old(self)@.heightmap,
            final(self)@.position == old(self)@.position,
    {
        self.block[*index as usize] = *block;
    }

    /// Sets the block identifier at coordinates x, y, z.
    pub fn set_block_from_position(&mut self, x: &u8, y: &u8, z: &u8, block: &u32)
        requires
            voxel_index(*x, *y, *z) < VOXEL_COUNT,
        ensures
            final(self)@.block == old(self)@.block.update(voxel_index(*x, *y, *z) as int, *block),
            final(self)@.rotation == old(self)@.rotation,
            final(self)@.light == old(self)@.light,
            final(self)@.heightmap == old(self)@.heightmap,
            final(self)@.position == old(self)@.position,
    {
        let this_index: usize = pos_to_index(x, y, z) as usize;
        self.block[this_index] = *block;
    }

    /// Sets the block identifier at a vector position.
    pub fn set_block_from_vector_position(&mut self, position: &Vector3<u8>, block: &u32)
        requires
            vector_index(*position) < VOXEL_COUNT,
        ensures
            final(self)@.block == old(self)@.block.update(vector_index(*position) as int, *block),
            final(self)@.rotation == old(self)@.rotation,
            final(self)@.light == old(self)@.light,
            final(self)@.heightmap == old(self)@.heightmap,
            final(self)@.position == old(self)@.position,
    {
        let this_index: usize = vector_pos_to_index(position) as usize;
        self.block[this_index] = *block;
    }

    /// Returns the rotation at a flat voxel index.
    pub fn get_rotation_from_index(&self, index: &u16) -> (r: u8)
        requires
            *index < VOXEL_COUNT,
        ensures
            r == self@.rotation[*index as int],
    {
        let this_index: usize = *index as usize;
        self.rotation[this_index]
    }

    /// Returns the rotation at coordinates x, y, z.
    pub fn get_rotation_from_position(&self, x: &u8, y: &u8, z: &u8) -> (r: u8)
        requires
            voxel_index(*x, *y, *z) < VOXEL_COUNT,
        ensures
            r == self@.rotation[voxel_index(*x, *y, *z) as int],
    {
        let this_index: usize = pos_to_index(x, y, z) as usize;
        self.rotation[this_index]
    }

    /// Returns the rotation at a vector position.
    pub fn get_rotation_from_vector_position(&self, position: &Vector3<u8>) -> (r: u8)
        requires
            vector_index(*position) < VOXEL_COUNT,
        ensures
            r == self@.rotation[vector_index(*position) as int],
    {
        let this_index: usize = vector_pos_to_index(position) as usize;
        self.rotation[this_index]
    }

    /// Sets the rotation at a flat voxel index.
    pub fn set_rotation_from_index(&mut self, index: &u16, rotation: &u8)
        requires
            *index < VOXEL_COUNT,
        ensures
            final(self)@.rotation == old(self)@.rotation.update(*index as int, *rotation),
            final(self)@.block == old(self)@.block,
            final(self)@.light == old(self)@.light,
            final(self)@.heightmap == old(self)@.heightmap,
            final(self)@.position == old(self)@.position,
    {
        let this_index: usize = *index as usize;
        self.rotation[this_index] = *rotation;
    }

    /// Sets the rotation at coordinates x, y, z.
    pub fn set_rotation_from_position(&mut self, x: &u8, y: &u8, z: &u8, rotation: &u8)
        requires
            voxel_index(*x, *y, *z) < VOXEL_COUNT,
        ensures
            final(self)@.rotation == old(self)@.rotation.update(voxel_index(*x, *y, *z) as int, *rotation),
            final(self)@.block == old(self)@.block,
            final(self)@.light == old(self)@.light,
            final(self)@.heightmap == old(self)@.heightmap,
            final(self)@.position == old(self)@.position,
    {
        let this_index: usize = pos_to_index(x, y, z) as usize;
        self.rotation[this_index] = *rotation;
    }

    /// Sets the rotation at a vector position.
    pub fn set_rotation_from_vector_position(&mut self, position: &Vector3<u8>, rotation: &u8)
        requires
            vector_index(*position) < VOXEL_COUNT,
        ensures
            final(self)@.rotation == old(self)@.rotation.update(vector_index(*position) as int, *rotation),
            final(self)@.block == old(self)@.block,
            final(self)@.light == old(self)@.light,
            final(self)@.heightmap == old(self)@.heightmap,
            final(self)@.position == old(self)@.position,
    {
        let this_index: usize = vector_pos_to_index(position) as usize;
        self.rotation[this_index] = *rotation;
    }

    /// Returns the light level at a flat voxel index.
    pub fn get_light_from_index(&self, index: &u16) -> (r: u8)
        requires
            *index < VOXEL_COUNT,
        ensures
            r == self@.light[*index as int],
    {
        let this_index: usize = *index as usize;
        self.light[this_index]
    }

    /// Returns the light level at coordinates x, y, z.
    pub fn get_light_from_position(&self, x: &u8, y: &u8, z: &u8) -> (r: u8)
        requires
            voxel_index(*x, *y, *z) < VOXEL_COUNT,
        ensures
            r == self@.light[voxel_index(*x, *y, *z) as int],
    {
        let this_index: usize = pos_to_index(x, y, z) as usize;
        self.light[this_index]
    }

    /// Returns the light level at a vector position.
    pub fn get_light_from_vector_position(&self, position: &Vector3<u8>) -> (r: u8)
        requires
            vector_index(*position) < VOXEL_COUNT,
        ensures
            r == self@.light[vector_index(*position) as int],
    {
        let this_index: usize = vector_pos_to_index(position) as usize;
        self.light[this_index]
    }

    /// Sets the light level at a flat voxel index.
    pub fn set_light_from_index(&mut self, index: &u16, light: &u8)
        requires
            *index < VOXEL_COUNT,
        ensures
            final(self)@.light == old(self)@.light.update(*index as int, *light),
            final(self)@.block == old(self)@.block,
            final(self)@.rotation == old(self)@.rotation,
            final(self)@.heightmap == old(self)@.heightmap,
            final(self)@.position == old(self)@.position,
    {
        let this_index: usize = *index as usize;
        self.light[this_index] = *light;
    }

    /// Sets the light level at coordinates x, y, z.
    pub fn set_light_from_position(&mut self, x: &u8, y: &u8, z: &u8, light: &u8)
        requires
            voxel_index(*x, *y, *z) < VOXEL_COUNT,
        ensures
            final(self)@.light == old(self)@.light.update(voxel_index(*x, *y, *z) as int, *light),
            final(self)@.block == old(self)@.block,
            final(self)@.rotation == old(self)@.rotation,
            final(self)@.heightmap == old(self)@.heightmap,
            final(self)@.position == old(self)@.position,
    {
        let this_index: usize = pos_to_index(x, y, z) as usize;
        self.light[this_index] = *light;
    }

    /// Sets the light level at a vector position.
    pub fn set_light_from_vector_position(&mut self, position: &Vector3<u8>, light: &u8)
        requires
            vector_index(*position) < VOXEL_COUNT,
        ensures
            final(self)@.light == old(self)@.light.update(vector_index(*position) as int, *light),
            final(self)@.block == old(self)@.block,
            final(self)@.rotation == old(self)@.rotation,
            final(self)@.heightmap == old(self)@.heightmap,
            final(self)@.position == old(self)@.position,
    {
        let this_index: usize = vector_pos_to_index(position) as usize;
        self.light[this_index] = *light;
    }

    /// Returns the height stored for a heightmap index.
    pub fn get_heightmap_from_index(&self, index: &u8) -> (r: u8)
        ensures
            r == self@.heightmap[*index as int],
    {
        self.heightmap[*index as usize]
    }

    /// Returns the height stored for column x, z.
    pub fn get_heightmap_from_pos(&self, x: &u8, z: &u8) -> (r: u8)
        ensures
            r == self@.heightmap[column_index(*x, *z) as int],
    {
        let this_index: usize = heightmap_pos_to_index(x, z) as usize;
        self.heightmap[this_index]
    }

    /// Sets the height stored for a heightmap index.
    pub fn set_heightmap_from_index(&mut self, index: &u8, height: &u8)
        ensures
            final(self)@.heightmap == old(self)@.heightmap.update(*index as int, *height),
            final(self)@.block == old(self)@.block,
            final(self)@.rotation == old(self)@.rotation,
            final(self)@.light == old(self)@.light,
            final(self)@.position == old(self)@.position,
    {
        let this_index: usize = *index as usize;
        self.heightmap[this_index] = *height;
    }

    /// Sets the height stored for column x, z.
    pub fn set_heightmap_from_pos(&mut self, x: &u8, z: &u8, height: &u8)
        ensures
            final(self)@.heightmap == old(self)@.heightmap.update(column_index(*x, *z) as int, *height),
            final(self)@.block == old(self)@.block,
            final(self)@.rotation == old(self)@.rotation,
            final(self)@.light == old(self)@.light,
            final(self)@.position == old(self)@.position,
    {
        let this_index: usize = heightmap_pos_to_index(x, z) as usize;
        self.heightmap[this_index] = *height;
    }
}

/// A value written at a flat voxel index reads back through the coordinates
/// and through the vector position that the index converts to, in each of the
/// three per-voxel fields.
pub proof fn lemma_index_write_reads_back_by_position(
    c: ChunkView,
    i: u16,
    block: u32,
    rotation: u8,
    light: u8,
)
    requires
        c.wf(),
        i < VOXEL_COUNT,
    ensures
        c.block.update(i as int, block)[voxel_index(
            voxel_position(i).0,
            voxel_position(i).1,
            voxel_position(i).2,
        ) as int] == block,
        c.block.update(i as int, block)[vector_index(index_vector(i)) as int] == block,
        c.rotation.update(i as int, rotation)[voxel_index(
            voxel_position(i).0,
            voxel_position(i).1,
            voxel_position(i).2,
        ) as int] == rotation,
        c.rotation.update(i as int, rotation)[vector_index(index_vector(i)) as int] == rotation,
        c.light.update(i as int, light)[voxel_index(
            voxel_position(i).0,
            voxel_position(i).1,
            voxel_position(i).2,
        ) as int] == light,
        c.light.update(i as int, light)[vector_index(index_vector(i)) as int] == light,
{
    lemma_voxel_index_round_trip(i);
    lemma_vector_tuple_parity(i);
}

} // verus!
