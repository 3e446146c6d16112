use cgmath::Vector3;

use voxel_chunk::chunk::new;
use voxel_chunk::coords::{
    heightmap_index_to_pos, heightmap_pos_to_index, index_to_pos, index_to_vector_pos,
    pos_to_index, vector_pos_to_index, COLUMN_COUNT, VOXEL_COUNT,
};

#[test]
fn block_written_by_coordinates_reads_back_every_way() {
    let mut chunk = new(5, -12);
    chunk.set_block_from_position(&3, &64, &9, &42);
    assert_eq!(pos_to_index(&3, &64, &9), 7360);
    assert_eq!(chunk.get_block_from_index(&7360), 42);
    assert_eq!(chunk.get_block_from_position(&3, &64, &9), 42);
    assert_eq!(chunk.get_block_from_vector_position(&Vector3::new(3, 64, 9)), 42);
    assert_eq!(chunk.get_pos(), (5, -12));
}

#[test]
fn heightmap_corners() {
    let mut chunk = new(0, 0);
    chunk.set_heightmap_from_pos(&0, &0, &128);
    chunk.set_heightmap_from_pos(&15, &15, &7);
    assert_eq!(heightmap_pos_to_index(&0, &0), 0);
    assert_eq!(heightmap_pos_to_index(&15, &15), 255);
    assert_eq!(chunk.get_heightmap_from_index(&0), 128);
    assert_eq!(chunk.get_heightmap_from_index(&255), 7);
    assert_eq!(chunk.get_heightmap_from_pos(&15, &15), 7);
    assert_eq!(chunk.get_heightmap_from_index(&1), 0);
}

#[test]
fn voxel_index_formula() {
    assert_eq!(pos_to_index(&0, &0, &0), 0);
    assert_eq!(pos_to_index(&0, &1, &0), 1);
    assert_eq!(pos_to_index(&0, &0, &1), 128);
    assert_eq!(pos_to_index(&1, &0, &0), 2048);
    assert_eq!(pos_to_index(&15, &127, &15), 32767);
    assert_eq!(index_to_pos(&32767), (15, 127, 15));
    assert_eq!(index_to_pos(&7360), (3, 64, 9));
    assert_eq!(index_to_pos(&129), (0, 1, 1));
}

#[test]
fn voxel_index_outside_bounds_wraps() {
    // x = 32 gives 65536, which wraps to 0.
    assert_eq!(pos_to_index(&32, &0, &0), 0);
    // z = 16 aliases x + 1.
    assert_eq!(pos_to_index(&0, &0, &16), 2048);
    assert_eq!(pos_to_index(&255, &255, &255), ((255u32 * 2048 + 255 * 128 + 255) % 65536) as u16);
    assert_eq!(index_to_pos(&65535), (31, 127, 15));
}

#[test]
fn column_index_formula() {
    assert_eq!(heightmap_pos_to_index(&1, &0), 16);
    assert_eq!(heightmap_pos_to_index(&0, &1), 1);
    assert_eq!(heightmap_pos_to_index(&3, &9), 57);
    assert_eq!(heightmap_index_to_pos(&57), (3, 9));
    assert_eq!(heightmap_pos_to_index(&16, &0), 0);
}

#[test]
fn voxel_round_trip_all_indices() {
    for i in 0..VOXEL_COUNT as u16 {
        let (x, y, z) = index_to_pos(&i);
        assert!(x < 16 && y < 128 && z < 16);
        assert_eq!(pos_to_index(&x, &y, &z), i);
    }
}

#[test]
fn column_round_trip_all_indices() {
    for i in 0..=255u8 {
        let (x, z) = heightmap_index_to_pos(&i);
        assert!(x < 16 && z < 16);
        assert_eq!(heightmap_pos_to_index(&x, &z), i);
    }
    assert_eq!(COLUMN_COUNT, 256);
}

#[test]
fn vector_and_tuple_forms_agree() {
    for i in [0u16, 1, 127, 128, 2047, 2048, 7360, 32767, 40000, 65535] {
        let t = index_to_pos(&i);
        let v = index_to_vector_pos(&i);
        assert_eq!((v.x, v.y, v.z), t);
        assert_eq!(vector_pos_to_index(&v), pos_to_index(&t.0, &t.1, &t.2));
    }
    assert_eq!(vector_pos_to_index(&Vector3::new(3, 64, 9)), 7360);
}

#[test]
fn index_write_reads_back_by_coordinates() {
    let mut chunk = new(1, 2);
    for i in [0u16, 1, 128, 2048, 7360, 32767] {
        chunk.set_block_from_index(&i, &(i as u32 + 1000));
        chunk.set_rotation_from_index(&i, &3);
        chunk.set_light_from_index(&i, &15);
        let (x, y, z) = index_to_pos(&i);
        let v = index_to_vector_pos(&i);
        assert_eq!(chunk.get_block_from_position(&x, &y, &z), i as u32 + 1000);
        assert_eq!(chunk.get_block_from_vector_position(&v), i as u32 + 1000);
        assert_eq!(chunk.get_rotation_from_position(&x, &y, &z), 3);
        assert_eq!(chunk.get_rotation_from_vector_position(&v), 3);
        assert_eq!(chunk.get_light_from_position(&x, &y, &z), 15);
        assert_eq!(chunk.get_light_from_vector_position(&v), 15);
    }
}

#[test]
fn vector_writes_read_back_by_index() {
    let mut chunk = new(0, 0);
    let v = Vector3::new(2, 5, 7);
    chunk.set_block_from_vector_position(&v, &9);
    chunk.set_rotation_from_vector_position(&v, &2);
    chunk.set_light_from_vector_position(&v, &11);
    let i = 2 * 2048 + 7 * 128 + 5;
    assert_eq!(chunk.get_block_from_index(&i), 9);
    assert_eq!(chunk.get_rotation_from_index(&i), 2);
    assert_eq!(chunk.get_light_from_index(&i), 11);
    chunk.set_rotation_from_position(&2, &5, &7, &4);
    chunk.set_light_from_position(&2, &5, &7, &12);
    assert_eq!(chunk.get_rotation_from_index(&i), 4);
    assert_eq!(chunk.get_light_from_index(&i), 12);
}

#[test]
fn block_write_leaves_other_fields() {
    let mut chunk = new(0, 0);
    chunk.set_rotation_from_index(&100, &1);
    chunk.set_light_from_index(&100, &2);
    chunk.set_heightmap_from_index(&100, &3);
    chunk.set_block_from_index(&100, &77);
    assert_eq!(chunk.get_rotation_from_index(&100), 1);
    assert_eq!(chunk.get_light_from_index(&100), 2);
    assert_eq!(chunk.get_heightmap_from_index(&100), 3);
    assert_eq!(chunk.get_block_from_index(&100), 77);
    assert_eq!(chunk.get_block_from_index(&101), 0);
    assert_eq!(chunk.get_rotation_from_index(&101), 0);
}

#[test]
fn fresh_chunk_is_zero() {
    let chunk = new(-3, 4);
    for i in 0..VOXEL_COUNT as u16 {
        assert_eq!(chunk.get_block_from_index(&i), 0);
        assert_eq!(chunk.get_rotation_from_index(&i), 0);
        assert_eq!(chunk.get_light_from_index(&i), 0);
    }
    for i in 0..=255u8 {
        assert_eq!(chunk.get_heightmap_from_index(&i), 0);
    }
}

#[test]
fn position_survives_writes() {
    let mut chunk = new(i64::MIN, i64::MAX);
    assert_eq!(chunk.get_pos(), (i64::MIN, i64::MAX));
    chunk.set_block_from_index(&0, &1);
    chunk.set_rotation_from_position(&1, &2, &3, &4);
    chunk.set_light_from_vector_position(&Vector3::new(4, 5, 6), &7);
    chunk.set_heightmap_from_pos(&8, &9, &10);
    assert_eq!(chunk.get_pos(), (i64::MIN, i64::MAX));
}
