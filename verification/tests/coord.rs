use voxel_world::coord::{
    chunk_local_to_global, global_to_chunk_local, local_to_offset, offset_to_local, ChunkCoord,
    GlobalVoxelBlockCoord, LocalVoxelBlockCoord, LocalVoxelBlockOffset,
};
use voxel_world::settings::{CHUNK_HEIGHT, CHUNK_SIZE, MAX_OFFSET};

#[test]
fn from_global_to_local() {
    // Based on a CHUNK_SIZE of 16
    let global = GlobalVoxelBlockCoord::new(0, 0, 0);

    let (chunk_coord, local_block_coord): (ChunkCoord, LocalVoxelBlockCoord) = global.into();

    assert_eq!(chunk_coord.x, 0);
    assert_eq!(chunk_coord.y, 0);

    assert_eq!(local_block_coord.x, 0);
    assert_eq!(local_block_coord.y, 0);
    assert_eq!(local_block_coord.z, 0);

    let global = GlobalVoxelBlockCoord::new(16, 0, 32);

    let (chunk_coord, local_block_coord): (ChunkCoord, LocalVoxelBlockCoord) = global.into();

    println!("{:?} - {:?}", chunk_coord, local_block_coord);

    assert_eq!(chunk_coord.x, 1);
    assert_eq!(chunk_coord.y, 2);

    assert_eq!(local_block_coord.x, 0);
    assert_eq!(local_block_coord.y, 0);
    assert_eq!(local_block_coord.z, 0);

    let global = GlobalVoxelBlockCoord::new(-1, 100, -17);

    let (chunk_coord, local_block_coord): (ChunkCoord, LocalVoxelBlockCoord) = global.into();

    println!("{:?} - {:?}", chunk_coord, local_block_coord);

    assert_eq!(chunk_coord.x, -1);
    assert_eq!(chunk_coord.y, -2);

    assert_eq!(local_block_coord.x, 15);
    assert_eq!(local_block_coord.y, 100);
    assert_eq!(local_block_coord.z, 15);

    let global = GlobalVoxelBlockCoord::new(100, 22, -100);

    let (chunk_coord, local_block_coord): (ChunkCoord, LocalVoxelBlockCoord) = global.into();

    println!("{:?} - {:?}", chunk_coord, local_block_coord);

    assert_eq!(chunk_coord.x, 6);
    assert_eq!(chunk_coord.y, -7);

    assert_eq!(local_block_coord.x, 4);
    assert_eq!(local_block_coord.y, 22);
    assert_eq!(local_block_coord.z, 12);
}

#[test]
fn from_local_to_global() {
    let chunk_coord = ChunkCoord::new(0, 0);
    let local_block_coord = LocalVoxelBlockCoord::new(0, 0, 0);

    let global_coord: GlobalVoxelBlockCoord = chunk_local_to_global(chunk_coord, local_block_coord);

    assert_eq!(global_coord.x, 0);
    assert_eq!(global_coord.y, 0);
    assert_eq!(global_coord.z, 0);

    let chunk_coord = ChunkCoord::new(3, 4);
    let local_block_coord = LocalVoxelBlockCoord::new(2, 5, 8);

    let global_coord: GlobalVoxelBlockCoord = chunk_local_to_global(chunk_coord, local_block_coord);

    assert_eq!(global_coord.x, 50);
    assert_eq!(global_coord.y, 5);
    assert_eq!(global_coord.z, 72);

    let chunk_coord = ChunkCoord::new(-2, -4);
    let local_block_coord = LocalVoxelBlockCoord::new(3, 7, 15);

    let global_coord: GlobalVoxelBlockCoord = chunk_local_to_global(chunk_coord, local_block_coord);

    assert_eq!(global_coord.x, -29);
    assert_eq!(global_coord.y, 7);
    assert_eq!(global_coord.z, -49);
}

#[test]
fn local_coord_to_offset() {
    for x in 0..CHUNK_SIZE {
        for y in 0..CHUNK_HEIGHT {
            for z in 0..CHUNK_SIZE {
                let offset = LocalVoxelBlockOffset::try_from(LocalVoxelBlockCoord::new(x, y, z));

                assert!(offset.is_ok());
            }
        }
    }
}

#[test]
fn offset_to_local_coord() {
    let cases = vec![
        (0, (0, 0, 0)),
        (15, (15, 0, 0)),
        (16, (0, 0, 1)),
        (31, (15, 0, 1)),
        (257, (1, 1, 0)),
    ];

    for case in cases {
        let offset = LocalVoxelBlockOffset(case.0);

        let coord = offset_to_local(offset);

        assert_eq!(coord.x, case.1 .0);
        assert_eq!(coord.y, case.1 .1);
        assert_eq!(coord.z, case.1 .2);
    }
}

#[test]
fn local_coord_outside_bounds() {
    let zero = LocalVoxelBlockCoord::new(0, 0, 0);
    let limit = LocalVoxelBlockCoord::new(CHUNK_SIZE - 1, CHUNK_HEIGHT - 1, CHUNK_SIZE - 1);

    let cases = vec![
        zero + [-1, 0, 0],
        zero + [0, -1, 0],
        zero + [0, 0, -1],
        zero + [-1, -1, 0],
        zero + [0, -1, -1],
        zero + [-1, 0, -1],
        zero + [-1, -1, -1],
        limit + [1, 0, 0],
        limit + [0, 1, 0],
        limit + [0, 0, 1],
        limit + [1, 1, 0],
        limit + [0, 1, 1],
        limit + [1, 0, 1],
        limit + [1, 1, 1],
    ];

    for case in cases {
        assert!(case.is_none());
    }
}

#[test]
fn block_offset_add_tuple3() {
    let offset = LocalVoxelBlockOffset::try_from(LocalVoxelBlockCoord::new(0, 0, 0)).unwrap();
    let offset = offset + [0, 0, 1];

    let expected_offset =
        LocalVoxelBlockOffset::try_from(LocalVoxelBlockCoord::new(0, 0, 1)).unwrap();

    match offset {
        Some(v) => assert_eq!(expected_offset, v),
        None => assert!(false),
    }

    let offset = LocalVoxelBlockOffset::try_from(LocalVoxelBlockCoord::new(4, 9, 14)).unwrap();
    let offset = offset + [3, 2, 0];

    let expected_offset =
        LocalVoxelBlockOffset::try_from(LocalVoxelBlockCoord::new(7, 11, 14)).unwrap();

    match offset {
        Some(v) => assert_eq!(expected_offset, v),
        None => assert!(false),
    }

    let offset = LocalVoxelBlockOffset::try_from(LocalVoxelBlockCoord::new(
        CHUNK_SIZE - 1,
        CHUNK_HEIGHT - 1,
        CHUNK_SIZE - 1,
    ))
    .unwrap();
    let offset = offset + [1, 1, 1];

    println!("{:?}", offset);

    assert!(offset.is_none());
}

#[test]
fn block_offset_add_tuple3_specific_case() {
    let offset = LocalVoxelBlockOffset(1);
    let offset = offset + [-1, 0, 0];

    let expected_offset =
        LocalVoxelBlockOffset::try_from(LocalVoxelBlockCoord::new(0, 0, 0)).unwrap();

    match offset {
        Some(v) => assert_eq!(expected_offset, v),
        None => assert!(false),
    }
}

#[test]
fn global_round_trip_over_a_range() {
    for gx in -100..=100 {
        for gz in -100..=100 {
            for gy in [-100, -1, 0, 1, 79, 100] {
                let global = GlobalVoxelBlockCoord::new(gx, gy, gz);
                let (chunk, local) = global_to_chunk_local(global);
                assert!(0 <= local.x && local.x < CHUNK_SIZE);
                assert!(0 <= local.z && local.z < CHUNK_SIZE);
                assert_eq!(local.y, gy);
                assert_eq!(chunk_local_to_global(chunk, local), global);
            }
        }
    }
}

#[test]
fn global_split_at_the_ends_of_the_integer_range() {
    let (chunk, local) = global_to_chunk_local(GlobalVoxelBlockCoord::new(i32::MIN, 0, i32::MAX));
    assert_eq!(chunk, ChunkCoord::new(-134217728, 134217727));
    assert_eq!(local, LocalVoxelBlockCoord::new(0, 0, 15));
    assert_eq!(
        chunk_local_to_global(chunk, local),
        GlobalVoxelBlockCoord::new(i32::MIN, 0, i32::MAX)
    );
}

#[test]
fn chunk_local_round_trip() {
    for cx in [-5, -1, 0, 1, 7] {
        for cz in [-3, 0, 4] {
            for lx in 0..CHUNK_SIZE {
                for lz in 0..CHUNK_SIZE {
                    let chunk = ChunkCoord::new(cx, cz);
                    let local = LocalVoxelBlockCoord::new(lx, 42, lz);
                    let global = chunk_local_to_global(chunk, local);
                    assert_eq!(global_to_chunk_local(global), (chunk, local));
                }
            }
        }
    }
}

#[test]
fn offset_bijection_over_the_whole_chunk() {
    let mut seen = vec![false; MAX_OFFSET as usize];
    for x in 0..CHUNK_SIZE {
        for y in 0..CHUNK_HEIGHT {
            for z in 0..CHUNK_SIZE {
                let coord = LocalVoxelBlockCoord::new(x, y, z);
                let offset = local_to_offset(coord).unwrap();
                assert_eq!(offset.0 as i32, x + z * CHUNK_SIZE + y * CHUNK_SIZE * CHUNK_SIZE);
                assert!(!seen[offset.0]);
                seen[offset.0] = true;
                assert_eq!(offset_to_local(offset), coord);
            }
        }
    }
    assert!(seen.iter().all(|s| *s));
    for index in 0..MAX_OFFSET as usize {
        let coord = offset_to_local(LocalVoxelBlockOffset(index));
        assert!(coord.is_valid_chunk_voxel_coord());
        assert_eq!(local_to_offset(coord), Ok(LocalVoxelBlockOffset(index)));
    }
}

#[test]
fn offset_of_an_exact_coordinate() {
    assert_eq!(
        local_to_offset(LocalVoxelBlockCoord::new(3, 2, 5)),
        Ok(LocalVoxelBlockOffset(3 + 5 * 16 + 2 * 256))
    );
    assert_eq!(
        local_to_offset(LocalVoxelBlockCoord::new(15, 79, 15)),
        Ok(LocalVoxelBlockOffset(20479))
    );
    assert_eq!(LocalVoxelBlockOffset::try_from([1, 1, 0]), Ok(LocalVoxelBlockOffset(257)));
}

#[test]
fn offset_of_a_coordinate_outside_the_chunk_is_an_error() {
    assert_eq!(local_to_offset(LocalVoxelBlockCoord::new(-1, 0, 0)), Err(()));
    assert_eq!(local_to_offset(LocalVoxelBlockCoord::new(16, 0, 0)), Err(()));
    assert_eq!(local_to_offset(LocalVoxelBlockCoord::new(0, 80, 0)), Err(()));
    assert_eq!(local_to_offset(LocalVoxelBlockCoord::new(0, -1, 0)), Err(()));
    assert_eq!(local_to_offset(LocalVoxelBlockCoord::new(0, 0, 16)), Err(()));
    assert_eq!(LocalVoxelBlockOffset::try_from([0, 0, -1]), Err(()));
    assert_eq!(
        LocalVoxelBlockOffset::try_from(LocalVoxelBlockCoord::new(i32::MAX, i32::MAX, i32::MAX)),
        Err(())
    );
}

#[test]
fn validity_of_local_coordinates() {
    assert!(LocalVoxelBlockCoord::new(0, 0, 0).is_valid_chunk_voxel_coord());
    assert!(LocalVoxelBlockCoord::new(15, 79, 15).is_valid_chunk_voxel_coord());
    assert!(!LocalVoxelBlockCoord::new(16, 79, 15).is_valid_chunk_voxel_coord());
    assert!(!LocalVoxelBlockCoord::new(15, 80, 15).is_valid_chunk_voxel_coord());
    assert!(!LocalVoxelBlockCoord::new(15, 79, 16).is_valid_chunk_voxel_coord());
    assert!(!LocalVoxelBlockCoord::new(-1, 0, 0).is_valid_chunk_voxel_coord());
    assert_eq!(LocalVoxelBlockCoord::from([4, 5, 6]), LocalVoxelBlockCoord::new(4, 5, 6));
}

#[test]
fn neighbors_inside_the_chunk() {
    let c = LocalVoxelBlockCoord::new(3, 4, 5);
    assert_eq!(c.front_neighbor(), Some(LocalVoxelBlockCoord::new(3, 4, 6)));
    assert_eq!(c.back_neighbor(), Some(LocalVoxelBlockCoord::new(3, 4, 4)));
    assert_eq!(c.right_neighbor(), Some(LocalVoxelBlockCoord::new(4, 4, 5)));
    assert_eq!(c.left_neighbor(), Some(LocalVoxelBlockCoord::new(2, 4, 5)));
    assert_eq!(c.top_neighbor(), Some(LocalVoxelBlockCoord::new(3, 5, 5)));
    assert_eq!(c.bottom_neighbor(), Some(LocalVoxelBlockCoord::new(3, 3, 5)));
    assert_eq!(
        c.neighbors(),
        [
            Some(LocalVoxelBlockCoord::new(3, 4, 6)),
            Some(LocalVoxelBlockCoord::new(3, 4, 4)),
            Some(LocalVoxelBlockCoord::new(4, 4, 5)),
            Some(LocalVoxelBlockCoord::new(2, 4, 5)),
            Some(LocalVoxelBlockCoord::new(3, 5, 5)),
            Some(LocalVoxelBlockCoord::new(3, 3, 5)),
        ]
    );
}

#[test]
fn neighbors_at_the_corners_are_absent() {
    let zero = LocalVoxelBlockCoord::new(0, 0, 0);
    assert_eq!(zero.back_neighbor(), None);
    assert_eq!(zero.left_neighbor(), None);
    assert_eq!(zero.bottom_neighbor(), None);
    assert_eq!(zero.front_neighbor(), Some(LocalVoxelBlockCoord::new(0, 0, 1)));
    assert_eq!(zero.right_neighbor(), Some(LocalVoxelBlockCoord::new(1, 0, 0)));
    assert_eq!(zero.top_neighbor(), Some(LocalVoxelBlockCoord::new(0, 1, 0)));
    let limit = LocalVoxelBlockCoord::new(15, 79, 15);
    assert_eq!(
        limit.neighbors(),
        [
            None,
            Some(LocalVoxelBlockCoord::new(15, 79, 14)),
            None,
            Some(LocalVoxelBlockCoord::new(14, 79, 15)),
            None,
            Some(LocalVoxelBlockCoord::new(15, 78, 15)),
        ]
    );
    let far = LocalVoxelBlockCoord::new(i32::MAX, i32::MIN, 40);
    assert_eq!(far.neighbors(), [None, None, None, None, None, None]);
}

#[test]
fn coordinate_steps() {
    let c = LocalVoxelBlockCoord::new(4, 9, 14);
    assert_eq!(c + [3, 2, 0], Some(LocalVoxelBlockCoord::new(7, 11, 14)));
    assert_eq!(c.checked_step([-4, -9, 1]), Some(LocalVoxelBlockCoord::new(0, 0, 15)));
    assert_eq!(c + [0, 0, 2], None);
    assert_eq!(c + [i32::MAX, 0, 0], None);
    assert_eq!(c + [i32::MIN, i32::MIN, i32::MIN], None);
}

#[test]
fn offset_steps() {
    assert_eq!(LocalVoxelBlockOffset(0) + [0, 1, 0], Some(LocalVoxelBlockOffset(256)));
    assert_eq!(LocalVoxelBlockOffset(0) + [1, 1, 1], Some(LocalVoxelBlockOffset(273)));
    assert_eq!(LocalVoxelBlockOffset(0).checked_step([-1, 0, 0]), None);
    assert_eq!(LocalVoxelBlockOffset(20479) + [1, 0, 0], None);
    assert_eq!(LocalVoxelBlockOffset(20479) + [0, 0, 0], Some(LocalVoxelBlockOffset(20479)));
    assert_eq!(LocalVoxelBlockOffset(15) + [1, 0, 0], Some(LocalVoxelBlockOffset(16)));
    assert_eq!(LocalVoxelBlockOffset(20480) + [-1, 0, 0], Some(LocalVoxelBlockOffset(20479)));
    assert_eq!(LocalVoxelBlockOffset(usize::MAX) + [-1, 0, 0], None);
    assert_eq!(LocalVoxelBlockOffset(5) + [i32::MAX, i32::MAX, i32::MAX], None);
    assert_eq!(LocalVoxelBlockOffset(5) + [i32::MIN, i32::MIN, i32::MIN], None);
}

#[test]
fn the_world_origin_of_a_chunk() {
    assert_eq!(ChunkCoord::new(0, 0).world_origin(), [0, 0, 0]);
    assert_eq!(ChunkCoord::new(3, -4).world_origin(), [48, 0, -64]);
    assert_eq!(ChunkCoord::new(i32::MAX, i32::MIN).world_origin(), [34359738352, 0, -34359738368]);
}
