//! Lattice vertices and the layout of their attributes in a vertex buffer.

use vstd::prelude::*;

verus! {

/// Tag of a grid line that runs along the X direction.
pub const AXIS_X: u32 = 0;

/// Tag of a grid line that runs along the Y direction.
pub const AXIS_Y: u32 = 1;

/// Tag of a grid line that runs along the Z direction.
pub const AXIS_Z: u32 = 2;

/// One corner of a lattice quad.
///
/// `pos` is measured in half units: each component is twice the world
/// coordinate, so that the half-integral corners of an odd-sized grid stay
/// exact integers. `axis` is one of [`AXIS_X`], [`AXIS_Y`], [`AXIS_Z`].
#[derive(Debug, Clone, Copy, PartialEq, Eq)]
pub struct Vertex {
    pub pos: [i32; 3],
    pub axis: u32,
}

/// Element format of one vertex attribute.
#[derive(Debug, Clone, Copy, PartialEq, Eq, Structural)]
pub enum VertexFormat {
    /// Three 32-bit floating-point components.
    Float32x3,
    /// One 32-bit unsigned integer.
    Uint32,
}

impl VertexFormat {
    /// Number of bytes that one attribute of this format occupies.
    pub open spec fn spec_size(self) -> nat {
        match self {
            VertexFormat::Float32x3 => 12,
            VertexFormat::Uint32 => 4,
        }
    }

    /// Number of bytes that one attribute of this format occupies.
    pub fn size(self) -> (bytes: u64)
        ensures
            bytes == self.spec_size(),
    {
        match self {
            VertexFormat::Float32x3 => 12,
            VertexFormat::Uint32 => 4,
        }
    }
}

/// Where one input of the vertex stage lies inside a vertex.
#[derive(Debug, Clone, Copy, PartialEq, Eq, Structural)]
pub struct VertexAttribute {
    /// Element format of the input.
    pub format: VertexFormat,
    /// Byte offset of the input from the start of the vertex.
    pub offset: u64,
    /// Location of the input in the shader.
    pub shader_location: u32,
}

/// The formats of a vertex's attributes, in buffer order: the position, then
/// the axis tag.
pub open spec fn vertex_formats() -> Seq<VertexFormat> {
    seq![VertexFormat::Float32x3, VertexFormat::Uint32]
}

/// Total size of the first `n` formats of `formats`.
pub open spec fn packed_size(formats: Seq<VertexFormat>, n: nat) -> nat
    decreases n,
{
    if n == 0 || n > formats.len() {
        0
    } else {
        packed_size(formats, (n - 1) as nat) + formats[n - 1].spec_size()
    }
}

/// The attributes of a tightly packed vertex: attribute `i` has the `i`-th
/// format, starts where attribute `i - 1` ends, and is bound to location `i`.
pub open spec fn packed_attributes(formats: Seq<VertexFormat>) -> Seq<VertexAttribute> {
    Seq::new(
        formats.len(),
        |i: int|
            VertexAttribute {
                format: formats[i],
                offset: packed_size(formats, i as nat) as u64,
                shader_location: i as u32,
            },
    )
}

impl Vertex {
    /// Distance in bytes between two consecutive vertices of a vertex buffer:
    /// the packed size of all attributes, which is 16.
    pub fn stride() -> (bytes: u64)
        ensures
            bytes == packed_size(vertex_formats(), vertex_formats().len()),
            bytes == 16,
    {
        proof {
            reveal_with_fuel(packed_size, 3);
        }
        VertexFormat::Float32x3.size() + VertexFormat::Uint32.size()
    }

    /// The attributes of a vertex, tightly packed in buffer order: the
    /// position at offset 0 and location 0, the axis tag at offset 12 and
    /// location 1.
    pub fn attributes() -> (attrs: [VertexAttribute; 2])
        ensures
            attrs@ == packed_attributes(vertex_formats()),
            attrs[0] == (VertexAttribute {
                format: VertexFormat::Float32x3,
                offset: 0,
                shader_location: 0,
            }),
            attrs[1] == (VertexAttribute {
                format: VertexFormat::Uint32,
                offset: 12,
                shader_location: 1,
            }),
    {
        let position = VertexAttribute {
            format: VertexFormat::Float32x3,
            offset: 0,
            shader_location: 0,
        };
        let axis = VertexAttribute {
            format: VertexFormat::Uint32,
            offset: position.offset + position.format.size(),
            shader_location: 1,
        };
        let attrs = [position, axis];
        proof {
            reveal_with_fuel(packed_size, 3);
            assert(attrs@ =~= packed_attributes(vertex_formats()));
        }
        attrs
    }
}

/// The attributes of a vertex do not overlap and fill the stride exactly:
/// each one ends where the next begins, and the last one ends at the stride.
pub proof fn lemma_attributes_fill_stride()
    ensures
        ({
            let attrs = packed_attributes(vertex_formats());
            &&& attrs.len() == 2
            &&& attrs[0].offset == 0
            &&& attrs[0].offset + attrs[0].format.spec_size() == attrs[1].offset
            &&& attrs[1].offset + attrs[1].format.spec_size() == 16
        }),
{
    reveal_with_fuel(packed_size, 3);
}

} // verus!
