use voxel_world::block::{VoxelBlock, VoxelBlockType};
use voxel_world::coord::{ChunkCoord, LocalVoxelBlockCoord, LocalVoxelBlockOffset};
use voxel_world::mesh::collision_buffers;
use voxel_world::terrain::{
    bundle_chunk, generate_chunk, generate_single_chunk, generate_single_demo_chunk, sample_point,
    MaterialBucket, MaterialTable, TerrainSamples, COLUMN_COUNT,
};
use voxel_world::settings::MAX_OFFSET;

fn block_at(chunk: &voxel_world::chunk::VoxelChunk, x: i32, y: i32, z: i32) -> VoxelBlock {
    *chunk.get_block(&LocalVoxelBlockCoord::new(x, y, z)).unwrap()
}

#[test]
fn reference_table_buckets() {
    let table = MaterialTable::reference();
    assert_eq!(table.buckets.len(), 4);
    assert_eq!(table.fallback, VoxelBlockType::Dirt);
    assert_eq!(
        table.buckets[0],
        MaterialBucket { low: 400, high: 410, block_type: VoxelBlockType::Gem }
    );
    assert_eq!(table.classify(400), VoxelBlockType::Gem);
    assert_eq!(table.classify(409), VoxelBlockType::Gem);
    assert_eq!(table.classify(410), VoxelBlockType::Rock);
    assert_eq!(table.classify(599), VoxelBlockType::Rock);
    assert_eq!(table.classify(600), VoxelBlockType::Dirt);
    assert_eq!(table.classify(679), VoxelBlockType::Dirt);
    assert_eq!(table.classify(680), VoxelBlockType::Dirt);
    assert_eq!(table.classify(699), VoxelBlockType::Dirt);
    assert_eq!(table.classify(700), VoxelBlockType::Grass);
    assert_eq!(table.classify(999), VoxelBlockType::Grass);
    assert_eq!(table.classify(1000), VoxelBlockType::Dirt);
    assert_eq!(table.classify(399), VoxelBlockType::Dirt);
    assert_eq!(table.classify(0), VoxelBlockType::Dirt);
    assert_eq!(table.classify(-1), VoxelBlockType::Dirt);
    assert_eq!(table.classify(i32::MAX), VoxelBlockType::Dirt);
    assert_eq!(table.classify(i32::MIN), VoxelBlockType::Dirt);
}

#[test]
fn the_first_matching_bucket_wins() {
    let table = MaterialTable {
        buckets: vec![
            MaterialBucket { low: 0, high: 10, block_type: VoxelBlockType::Rock },
            MaterialBucket { low: 5, high: 20, block_type: VoxelBlockType::Gem },
            MaterialBucket { low: 30, high: 30, block_type: VoxelBlockType::Grass },
        ],
        fallback: VoxelBlockType::Empty,
    };
    assert_eq!(table.classify(7), VoxelBlockType::Rock);
    assert_eq!(table.classify(10), VoxelBlockType::Gem);
    assert_eq!(table.classify(30), VoxelBlockType::Empty);
    assert_eq!(table.classify(20), VoxelBlockType::Empty);
    let none = MaterialTable { buckets: Vec::new(), fallback: VoxelBlockType::Grass };
    assert_eq!(none.classify(7), VoxelBlockType::Grass);
    assert!(MaterialBucket { low: 1, high: 3, block_type: VoxelBlockType::Rock }.contains(1));
    assert!(MaterialBucket { low: 1, high: 3, block_type: VoxelBlockType::Rock }.contains(2));
    assert!(!MaterialBucket { low: 1, high: 3, block_type: VoxelBlockType::Rock }.contains(3));
    assert!(!MaterialBucket { low: 1, high: 3, block_type: VoxelBlockType::Rock }.contains(0));
}

#[test]
fn samples_need_one_height_per_column_and_one_value_per_block() {
    assert_eq!(COLUMN_COUNT, 256);
    assert!(TerrainSamples::new(vec![0; 256], vec![0; MAX_OFFSET as usize]).is_some());
    assert!(TerrainSamples::new(vec![0; 255], vec![0; MAX_OFFSET as usize]).is_none());
    assert!(TerrainSamples::new(vec![0; 257], vec![0; MAX_OFFSET as usize]).is_none());
    assert!(TerrainSamples::new(vec![0; 256], vec![0; MAX_OFFSET as usize - 1]).is_none());
    assert!(TerrainSamples::new(vec![0; 256], vec![0; MAX_OFFSET as usize + 1]).is_none());
    assert!(TerrainSamples::new(Vec::new(), Vec::new()).is_none());
}

#[test]
fn columns_are_filled_up_to_their_height() {
    let mut heights = vec![-1; 256];
    heights[2 + 5 * 16] = 10;
    heights[0] = 0;
    heights[255] = 200;
    let samples = TerrainSamples::new(heights, vec![500; MAX_OFFSET as usize]).unwrap();
    let chunk = generate_single_chunk(&samples, &MaterialTable::reference());
    let mut solid = 0;
    for index in 0..MAX_OFFSET as usize {
        if chunk.get_block(&LocalVoxelBlockOffset(index)).unwrap().block_type
            != VoxelBlockType::Empty
        {
            solid += 1;
        }
    }
    assert_eq!(solid, 11 + 1 + 80);
    for y in 0..80 {
        let expected = if y <= 10 { VoxelBlockType::Rock } else { VoxelBlockType::Empty };
        assert_eq!(block_at(&chunk, 2, y, 5).block_type, expected);
        assert_eq!(block_at(&chunk, 15, y, 15).block_type, VoxelBlockType::Rock);
        assert_eq!(block_at(&chunk, 5, y, 2).block_type, VoxelBlockType::Empty);
    }
    assert_eq!(block_at(&chunk, 0, 0, 0), VoxelBlock::of_type(VoxelBlockType::Rock));
    assert_eq!(block_at(&chunk, 0, 1, 0), VoxelBlock::default());
}

#[test]
fn materials_follow_the_value_of_each_block() {
    let mut values = vec![0; MAX_OFFSET as usize];
    for (index, value) in values.iter_mut().enumerate() {
        let y = index / 256;
        *value = match y {
            0 => 405,
            1 => 500,
            2 => 690,
            3 => 750,
            _ => 650,
        };
    }
    let samples = TerrainSamples::new(vec![4; 256], values).unwrap();
    let chunk = generate_single_chunk(&samples, &MaterialTable::reference());
    for x in 0..16 {
        for z in 0..16 {
            assert_eq!(block_at(&chunk, x, 0, z).block_type, VoxelBlockType::Gem);
            assert_eq!(block_at(&chunk, x, 1, z).block_type, VoxelBlockType::Rock);
            assert_eq!(block_at(&chunk, x, 2, z).block_type, VoxelBlockType::Dirt);
            assert_eq!(block_at(&chunk, x, 3, z).block_type, VoxelBlockType::Grass);
            assert_eq!(block_at(&chunk, x, 4, z).block_type, VoxelBlockType::Dirt);
            assert_eq!(block_at(&chunk, x, 5, z).block_type, VoxelBlockType::Empty);
        }
    }
}

#[test]
fn generation_is_deterministic() {
    let mut heights = Vec::new();
    for column in 0..256 {
        heights.push((column * 7 % 90) as i32 - 5);
    }
    let mut values = Vec::new();
    for index in 0..MAX_OFFSET as usize {
        values.push((index * 31 % 1100) as i32 - 50);
    }
    let first_samples = TerrainSamples::new(heights.clone(), values.clone()).unwrap();
    let second_samples = TerrainSamples::new(heights, values).unwrap();
    let table = MaterialTable::reference();
    let first = generate_chunk(&first_samples, &table);
    let second = generate_chunk(&second_samples, &MaterialTable::reference());
    for index in 0..MAX_OFFSET as usize {
        let offset = LocalVoxelBlockOffset(index);
        assert_eq!(first.chunk.get_block(&offset), second.chunk.get_block(&offset));
    }
    assert_eq!(first.mesh_indices, second.mesh_indices);
    assert_eq!(first.mesh_vertices, second.mesh_vertices);
    assert_eq!(first.vertex, second.vertex);
    assert_eq!(first.indices, second.indices);
    assert!(!first.mesh_vertices.is_empty());
}

#[test]
fn a_generated_chunk_comes_with_consistent_buffers() {
    let samples = TerrainSamples::new(vec![0; 256], vec![750; MAX_OFFSET as usize]).unwrap();
    let data = generate_chunk(&samples, &MaterialTable::reference());
    // one layer of grass: top and bottom of every column, and the rim
    let faces = 256 + 256 + 4 * 16;
    assert_eq!(data.mesh_vertices.len(), 4 * faces);
    assert_eq!(data.mesh_indices.len(), 6 * faces);
    assert_eq!(data.vertex.len(), 4 * faces);
    assert_eq!(data.indices.len(), 2 * faces);
    let (positions, triangles) = collision_buffers(&data.mesh_vertices, &data.mesh_indices);
    assert_eq!(data.vertex, positions);
    assert_eq!(data.indices, triangles);
    let (indices, vertices) = data.chunk.render_indices_and_vertices();
    assert_eq!(data.mesh_indices, indices);
    assert_eq!(data.mesh_vertices, vertices);
    assert!(data.mesh_vertices.iter().all(|v| v.quarter_u <= 1));
    let again = bundle_chunk(data.chunk.clone());
    assert_eq!(again.mesh_indices, data.mesh_indices);
    assert_eq!(again.vertex, data.vertex);
}

#[test]
fn the_demo_chunk_has_three_layers_of_grass() {
    let chunk = generate_single_demo_chunk();
    for x in 0..16 {
        for z in 0..16 {
            for y in 0..80 {
                let expected = if y > 4 && y < 8 { VoxelBlockType::Grass } else { VoxelBlockType::Empty };
                assert_eq!(block_at(&chunk, x, y, z).block_type, expected);
            }
        }
    }
    let (indices, vertices) = chunk.render_indices_and_vertices();
    let faces = 256 + 256 + 4 * 16 * 3;
    assert_eq!(vertices.len(), 4 * faces);
    assert_eq!(indices.len(), 6 * faces);
}

#[test]
fn sample_points_are_world_positions() {
    assert_eq!(
        sample_point(ChunkCoord::new(3, 4), LocalVoxelBlockCoord::new(2, 5, 8)),
        [50, 5, 72]
    );
    assert_eq!(
        sample_point(ChunkCoord::new(-2, -4), LocalVoxelBlockCoord::new(3, 7, 15)),
        [-29, 7, -49]
    );
    assert_eq!(
        sample_point(ChunkCoord::new(i32::MAX, i32::MIN), LocalVoxelBlockCoord::new(15, 0, 0)),
        [34359738367, 0, -34359738368]
    );
}
