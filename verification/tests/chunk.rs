use engine::chunk::{Chunk, Voxel, BIT_SIZE, CHUNK_SIZE, CHUNK_VOLUME};

#[test]
fn cells_are_packed_five_bits_a_coordinate() {
    assert_eq!(Chunk::linearize(&[0, 0, 0]), 0);
    assert_eq!(Chunk::linearize(&[0, 0, 1]), 1);
    assert_eq!(Chunk::linearize(&[0, 1, 0]), 32);
    assert_eq!(Chunk::linearize(&[1, 0, 0]), 1024);
    assert_eq!(Chunk::linearize(&[1, 2, 3]), 1024 + 64 + 3);
    assert_eq!(Chunk::linearize(&[31, 31, 31]), 32767);
    assert_eq!(BIT_SIZE, 5);
    assert_eq!(1usize << BIT_SIZE, CHUNK_SIZE);
    assert_eq!(CHUNK_VOLUME, CHUNK_SIZE * CHUNK_SIZE * CHUNK_SIZE);
}

#[test]
fn coordinates_beyond_the_chunk_overlap() {
    assert_eq!(Chunk::linearize(&[0, 0, 32]), 32);
    assert_eq!(Chunk::linearize(&[0, 1, 33]), 33);
    assert_eq!(Chunk::linearize(&[0, 0, -1]), usize::MAX);
}

#[test]
fn indices_are_unpacked_into_cells() {
    assert_eq!(Chunk::delinearize(0), [0, 0, 0]);
    assert_eq!(Chunk::delinearize(3), [0, 0, 3]);
    assert_eq!(Chunk::delinearize(33), [0, 1, 1]);
    assert_eq!(Chunk::delinearize(1091), [1, 2, 3]);
    assert_eq!(Chunk::delinearize(32767), [31, 31, 31]);
    assert_eq!(Chunk::delinearize(32768), [32, 0, 0]);
    assert_eq!(Chunk::delinearize(-33), [0, -1, -1]);
    assert_eq!(Chunk::delinearize(-1025), [-1, 0, -1]);
}

#[test]
fn every_cell_of_a_chunk_round_trips() {
    for x in 0..32 {
        for y in 0..32 {
            for z in 0..32 {
                let index = Chunk::linearize(&[x, y, z]);
                assert!(index < CHUNK_VOLUME);
                assert_eq!(Chunk::delinearize(index as i32), [x, y, z]);
            }
        }
    }
    for index in 0..CHUNK_VOLUME {
        assert_eq!(Chunk::linearize(&Chunk::delinearize(index as i32)), index);
    }
}

#[test]
fn demonstration_runs() {
    engine::chunk::test();
}

#[test]
fn chunk_holds_one_voxel_for_each_cell() {
    let chunk = Box::new(Chunk { voxels: [Voxel { solid: false }; CHUNK_VOLUME] });
    assert_eq!(chunk.voxels.len(), 32 * 32 * 32);
    assert!(!chunk.voxels[Chunk::linearize(&[31, 31, 31])].solid);
}
