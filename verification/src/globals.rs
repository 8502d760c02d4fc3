//! The uniform block of the scene pass.

use vstd::prelude::*;
use crate::bytes::{is_image_u32, words_to_bytes};

verus! {

/// Size of the block in a uniform buffer, in bytes.
pub const GLOBALS_SIZE: u64 = 80;

/// Camera data of one frame, as the scene shader reads it.
///
/// Every field is a 32-bit word or an array of them; the floating-point
/// fields of the shader are held as their IEEE 754 bit patterns. The block is
/// the fields in declaration order with nothing in between.
#[derive(Debug, Clone, Copy)]
pub struct GlobalsUniform {
    /// Projection times view, one inner array per column.
    pub proj_view_mat: [[u32; 4]; 4],
    /// Direction in which the camera looks.
    pub cam_dir: [u32; 3],
    /// Fills the block up to a multiple of 16 bytes.
    pub _padding: u32,
}

impl GlobalsUniform {
    /// The words of the block in order: the matrix column after column, the
    /// direction, the padding.
    pub open spec fn words(&self) -> Seq<u32> {
        Seq::new(
            20,
            |i: int|
                if i < 16 {
                    self.proj_view_mat@[i / 4]@[i % 4]
                } else if i < 19 {
                    self.cam_dir@[i - 16]
                } else {
                    self._padding
                },
        )
    }

    /// The block of a camera with this matrix and this direction. The
    /// padding is zero.
    pub fn new(proj_view_mat: [[u32; 4]; 4], cam_dir: [u32; 3]) -> (block: GlobalsUniform)
        ensures
            block.proj_view_mat == proj_view_mat,
            block.cam_dir == cam_dir,
            block._padding == 0,
    {
        GlobalsUniform { proj_view_mat, cam_dir, _padding: 0 }
    }

    /// The words of the block in order.
    pub fn to_words(&self) -> (words: Vec<u32>)
        ensures
            words@ == self.words(),
    {
        let mut words: Vec<u32> = Vec::new();
        let mut column: usize = 0;
        while column < 4
            invariant
                column <= 4,
                words@ == self.words().take(4 * column),
            decreases 4 - column,
        {
            let entries = self.proj_view_mat[column];
            words.push(entries[0]);
            words.push(entries[1]);
            words.push(entries[2]);
            words.push(entries[3]);
            proof {
                assert(words@ =~= self.words().take(4 * column + 4));
            }
            column += 1;
        }
        words.push(self.cam_dir[0]);
        words.push(self.cam_dir[1]);
        words.push(self.cam_dir[2]);
        words.push(self._padding);
        proof {
            assert(words@ =~= self.words());
        }
        words
    }

    /// The block as the bytes of a uniform buffer: its words in order, each
    /// as four bytes in the byte order of the machine.
    pub fn to_bytes(&self) -> (bytes: Vec<u8>)
        ensures
            is_image_u32(bytes@, self.words()),
            bytes.len() == GLOBALS_SIZE,
    {
        let words = self.to_words();
        words_to_bytes(&words)
    }
}

} // verus!
