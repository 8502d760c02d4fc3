//! The uniform block of the background pass.

use vstd::prelude::*;
use crate::bytes::{is_image_u32, words_to_bytes};
use crate::event::Frame;

verus! {

/// Size of the block in a uniform buffer, in bytes.
pub const BACKGROUND_SIZE: u64 = 24;

/// Viewport, time and view angles of one frame, as the background shader
/// reads them.
///
/// Every field is a 32-bit word or an array of them; the floating-point
/// fields of the shader are held as their IEEE 754 bit patterns. The block is
/// the fields in declaration order with nothing in between.
#[derive(Debug, Clone, Copy)]
pub struct BackgroundUniform {
    /// Width and height of the render target, in pixels.
    pub resolution: [u32; 2],
    /// Milliseconds since the viewer started, modulo 2^32.
    pub millis_elapsed: u32,
    /// Pitch of the camera, in radians.
    pub pitch: u32,
    /// Yaw of the camera, in radians.
    pub yaw: u32,
    /// Vertical field of view of the camera, in radians.
    pub fovy: u32,
}

impl BackgroundUniform {
    /// The words of the block in order.
    pub open spec fn words(&self) -> Seq<u32> {
        seq![
            self.resolution@[0],
            self.resolution@[1],
            self.millis_elapsed,
            self.pitch,
            self.yaw,
            self.fovy,
        ]
    }

    /// The block of the frame `frame`, seen by a camera with these angles:
    /// the frame's size and time, then the angles as given.
    pub fn new(frame: &Frame, pitch: u32, yaw: u32, fovy: u32) -> (block: BackgroundUniform)
        ensures
            block.resolution@ == seq![frame.width, frame.height],
            block.millis_elapsed == frame.millis_elapsed,
            block.pitch == pitch,
            block.yaw == yaw,
            block.fovy == fovy,
    {
        BackgroundUniform {
            resolution: [frame.width, frame.height],
            millis_elapsed: frame.millis_elapsed,
            pitch,
            yaw,
            fovy,
        }
    }

    /// The words of the block in order.
    pub fn to_words(&self) -> (words: Vec<u32>)
        ensures
            words@ == self.words(),
    {
        let mut words: Vec<u32> = Vec::new();
        words.push(self.resolution[0]);
        words.push(self.resolution[1]);
        words.push(self.millis_elapsed);
        words.push(self.pitch);
        words.push(self.yaw);
        words.push(self.fovy);
        proof {
            assert(words@ =~= self.words());
        }
        words
    }

    /// The block as the bytes of a uniform buffer: its words in order, each
    /// as four bytes in the byte order of the machine.
    pub fn to_bytes(&self) -> (bytes: Vec<u8>)
        ensures
            is_image_u32(bytes@, self.words()),
            bytes.len() == BACKGROUND_SIZE,
    {
        let words = self.to_words();
        words_to_bytes(&words)
    }
}

} // verus!
