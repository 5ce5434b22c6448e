//! Flat-array indexing of the cells of a cubic chunk.

use vstd::prelude::*;

verus! {

/// The number of cells along each edge of a chunk.
pub const CHUNK_SIZE: usize = 32;

/// The number of cells of a chunk.
pub const CHUNK_VOLUME: usize = 32768;

/// The number of bits that a coordinate within a chunk takes.
pub const BIT_SIZE: i32 = 5;

/// One cell of a chunk.
#[derive(Clone, Copy, Debug, PartialEq, Eq)]
pub struct Voxel {
    pub solid: bool,
}

/// A cube of cells, held as one flat array.
pub struct Chunk {
    pub voxels: [Voxel; CHUNK_VOLUME],
}

/// Where the cell `[x, y, z]` lies in the flat array: the three coordinates
/// packed five bits each, `x` highest.
pub open spec fn linear_index(x: i32, y: i32, z: i32) -> usize {
    (z | (y << 5i32) | (x << 10i32)) as usize
}

/// The quotient of `a` by a positive `b`, rounded towards zero.
pub open spec fn quotient(a: int, b: int) -> int {
    if a >= 0 {
        a / b
    } else {
        -((-a) / b)
    }
}

/// What is left of `a` when the multiples of a positive `b` are taken out of
/// it towards zero.
pub open spec fn remainder(a: int, b: int) -> int {
    a - b * quotient(a, b)
}

/// The cell that lies at `index` of the flat array.
pub open spec fn cell_at(index: i32) -> Seq<i32> {
    seq![
        quotient(index as int, 1024) as i32,
        remainder(quotient(index as int, 32), 32) as i32,
        remainder(index as int, 32) as i32,
    ]
}

/// Whether every coordinate of the cell lies within a chunk.
pub open spec fn in_chunk(x: i32, y: i32, z: i32) -> bool {
    0 <= x < 32 && 0 <= y < 32 && 0 <= z < 32
}

impl Chunk {
    /// The index of a cell in the flat array.
    pub fn linearize(cell: &[i32; 3]) -> (index: usize)
        ensures
            index == linear_index(cell[0], cell[1], cell[2]),
            in_chunk(cell[0], cell[1], cell[2]) ==> index == cell[0] * 1024 + cell[1] * 32
                + cell[2],
    {
        let x = cell[0];
        let y = cell[1];
        let z = cell[2];
        proof {
            lemma_linear_index_in_chunk(x, y, z);
        }
        #[verifier::truncate]
        ((z | (y << BIT_SIZE) | (x << (BIT_SIZE * 2))) as usize)
    }

    /// The cell at an index of the flat array.
    pub fn delinearize(idx: i32) -> (cell: [i32; 3])
        ensures
            cell@ == cell_at(idx),
    {
        let cell = [idx / 1024, (idx / 32) % 32, idx % 32];
        assert(cell@ =~= cell_at(idx));
        cell
    }
}

/// Within a chunk the packed index is `x * 1024 + y * 32 + z`.
pub proof fn lemma_linear_index_in_chunk(x: i32, y: i32, z: i32)
    ensures
        in_chunk(x, y, z) ==> linear_index(x, y, z) == x * 1024 + y * 32 + z,
{
    if in_chunk(x, y, z) {
        assert((z | (y << 5i32) | (x << 10i32)) == x * 1024 + y * 32 + z) by (bit_vector)
            requires
                0 <= x < 32 && 0 <= y < 32 && 0 <= z < 32,
        ;
    }
}

/// Every cell of a chunk is found again from its index.
pub proof fn lemma_cell_of_index(x: i32, y: i32, z: i32)
    requires
        in_chunk(x, y, z),
    ensures
        0 <= linear_index(x, y, z) < CHUNK_VOLUME,
        cell_at(linear_index(x, y, z) as i32) == seq![x, y, z],
{
    lemma_linear_index_in_chunk(x, y, z);
    let index = (x * 1024 + y * 32 + z) as i32;
    assert(cell_at(index) =~= seq![x, y, z]);
}

/// Every index of the flat array is the index of the cell that lies at it,
/// and that cell lies within the chunk.
pub proof fn lemma_index_of_cell(index: i32)
    requires
        0 <= index < CHUNK_VOLUME,
    ensures
        in_chunk(cell_at(index)[0], cell_at(index)[1], cell_at(index)[2]),
        linear_index(cell_at(index)[0], cell_at(index)[1], cell_at(index)[2]) == index,
{
    lemma_linear_index_in_chunk(cell_at(index)[0], cell_at(index)[1], cell_at(index)[2]);
}

/// Finds the cell at index 3 from indices of three integer types.
pub fn test() {
    let _from_i8 = Chunk::delinearize(3i8 as i32);
    let _from_usize = Chunk::delinearize(3usize as i32);
    let _from_i64 = Chunk::delinearize(3i64 as i32);
}

} // verus!
