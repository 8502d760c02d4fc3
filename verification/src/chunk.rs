//! A chunk: a square grid of block identifiers.

use vstd::prelude::*;
use crate::bytes::{is_image_u32, words_to_bytes};

verus! {

/// Side length of a chunk, in blocks.
pub const CHUNK_SIZE: usize = 32;

/// A grid of block identifiers, row by row. The identifier 0 is the empty
/// block.
#[derive(Debug, Clone, Copy)]
pub struct Chunk {
    pub blocks: [[u32; CHUNK_SIZE]; CHUNK_SIZE],
}

impl Chunk {
    /// The identifier of the block in row `row`, column `col`.
    pub open spec fn block(&self, row: int, col: int) -> u32 {
        self.blocks@[row]@[col]
    }

    /// All identifiers, row after row.
    pub open spec fn words(&self) -> Seq<u32> {
        Seq::new(
            (CHUNK_SIZE * CHUNK_SIZE) as nat,
            |i: int| self.block(i / (CHUNK_SIZE as int), i % (CHUNK_SIZE as int)),
        )
    }

    /// The chunk in which every block is empty.
    pub fn empty() -> (chunk: Chunk)
        ensures
            forall|row: int, col: int|
                0 <= row < CHUNK_SIZE && 0 <= col < CHUNK_SIZE ==> chunk.block(row, col) == 0,
    {
        Chunk { blocks: [[0; CHUNK_SIZE]; CHUNK_SIZE] }
    }

    /// The chunk of the viewer's scene: empty but for the block in the
    /// first row and first column, which has the identifier 1.
    pub fn scene() -> (chunk: Chunk)
        ensures
            chunk.block(0, 0) == 1,
            forall|row: int, col: int|
                0 <= row < CHUNK_SIZE && 0 <= col < CHUNK_SIZE && (row != 0 || col != 0)
                    ==> chunk.block(row, col) == 0,
    {
        let mut first_row: [u32; CHUNK_SIZE] = [0; CHUNK_SIZE];
        first_row[0] = 1;
        let mut blocks: [[u32; CHUNK_SIZE]; CHUNK_SIZE] = [[0; CHUNK_SIZE]; CHUNK_SIZE];
        blocks[0] = first_row;
        Chunk { blocks }
    }

    /// All identifiers, row after row.
    pub fn to_words(&self) -> (words: Vec<u32>)
        ensures
            words@ == self.words(),
    {
        let mut words: Vec<u32> = Vec::new();
        let mut row: usize = 0;
        while row < CHUNK_SIZE
            invariant
                row <= CHUNK_SIZE,
                words@ == self.words().take(row * CHUNK_SIZE),
            decreases CHUNK_SIZE - row,
        {
            let mut col: usize = 0;
            while col < CHUNK_SIZE
                invariant
                    row < CHUNK_SIZE,
                    col <= CHUNK_SIZE,
                    words@ == self.words().take(row * CHUNK_SIZE + col),
                decreases CHUNK_SIZE - col,
            {
                words.push(self.blocks[row][col]);
                proof {
                    assert(words@ =~= self.words().take(row * CHUNK_SIZE + col + 1));
                }
                col += 1;
            }
            row += 1;
        }
        proof {
            assert(words@ =~= self.words());
        }
        words
    }

    /// The chunk as the bytes of a uniform buffer: its identifiers row after
    /// row, each as four bytes in the byte order of the machine.
    pub fn to_bytes(&self) -> (bytes: Vec<u8>)
        ensures
            is_image_u32(bytes@, self.words()),
            bytes.len() == 4 * CHUNK_SIZE * CHUNK_SIZE,
    {
        let words = self.to_words();
        words_to_bytes(&words)
    }
}

} // verus!
