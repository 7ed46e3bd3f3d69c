//! The point record: one sampled tip position with its color.

use vstd::prelude::*;

verus! {

/// Number of 32-bit words in one record.
pub const RECORD_WORDS: usize = 6;

/// Number of bytes in one record.
pub const RECORD_SIZE: usize = 24;

/// Bit pattern of the single-precision number 1.0.
pub const ONE_BITS: u32 = 0x3f80_0000;

/// Number of bytes from the start of a record to its position.
pub const POSITION_OFFSET: u64 = 0;

/// Number of bytes from the start of a record to its color.
pub const COLOR_OFFSET: u64 = 12;

/// Whether a vertex buffer is stepped through by vertex or by instance.
#[derive(Clone, Copy, Debug, PartialEq, Eq, Structural)]
pub enum StepMode {
    Vertex,
    Instance,
}

/// The format of one attribute of a record.
#[derive(Clone, Copy, Debug, PartialEq, Eq, Structural)]
pub enum AttributeFormat {
    /// Three single-precision floats.
    Float32x3,
}

impl AttributeFormat {
    /// Number of bytes that an attribute of this format takes.
    pub open spec fn size(self) -> nat {
        match self {
            AttributeFormat::Float32x3 => 12,
        }
    }
}

/// Where the vertex stage finds one attribute within a record.
#[derive(Clone, Copy, Debug, PartialEq, Eq, Structural)]
pub struct VertexAttribute {
    pub offset: u64,
    pub shader_location: u32,
    pub format: AttributeFormat,
}

/// How the vertex stage reads records from the vertex buffer.
#[derive(Clone, Copy, Debug, PartialEq, Eq)]
pub struct VertexLayout {
    pub array_stride: u64,
    pub step_mode: StepMode,
    pub attributes: [VertexAttribute; 2],
}

/// One point of the trail. Each component is the bit pattern of a
/// single-precision float.
#[derive(Clone, Copy, Debug, PartialEq, Eq)]
pub struct Vertex {
    pub position: [u32; 3],
    pub color: [u32; 3],
}

impl Vertex {
    /// The record that fills every slot that was never written: the origin, in
    /// the base color (full red).
    pub open spec fn blank() -> Vertex {
        Vertex { position: [0u32, 0u32, 0u32], color: [ONE_BITS, 0u32, 0u32] }
    }

    /// The six words of the record in memory order: position, then color.
    pub open spec fn words(self) -> Seq<u32> {
        self.position@ + self.color@
    }

    /// The record of a sampled point: the tip's two coordinates in the plane
    /// of the drawing, in the trail's color (black).
    pub open spec fn spec_sample(tip: [u32; 2]) -> Vertex {
        Vertex { position: [tip[0], tip[1], 0u32], color: [0u32, 0u32, 0u32] }
    }

    /// The layout of a record: the position at location 0, the color after it
    /// at location 1, and one record after another for each vertex.
    pub open spec fn spec_desc() -> VertexLayout {
        VertexLayout {
            array_stride: RECORD_SIZE as u64,
            step_mode: StepMode::Vertex,
            attributes: [
                VertexAttribute {
                    offset: POSITION_OFFSET,
                    shader_location: 0,
                    format: AttributeFormat::Float32x3,
                },
                VertexAttribute {
                    offset: COLOR_OFFSET,
                    shader_location: 1,
                    format: AttributeFormat::Float32x3,
                },
            ],
        }
    }

    /// The blank record.
    pub fn new() -> (v: Vertex)
        ensures
            v == Vertex::blank(),
    {
        Vertex { position: [0, 0, 0], color: [ONE_BITS, 0, 0] }
    }

    /// The layout of a record in the vertex buffer. The two attributes lie
    /// one after the other and fill the record.
    pub fn desc() -> (layout: VertexLayout)
        ensures
            layout == Vertex::spec_desc(),
            layout.attributes[0].offset == 0,
            layout.attributes[1].offset == layout.attributes[0].offset
                + layout.attributes[0].format.size(),
            layout.array_stride == layout.attributes[1].offset
                + layout.attributes[1].format.size(),
    {
        VertexLayout {
            array_stride: RECORD_SIZE as u64,
            step_mode: StepMode::Vertex,
            attributes: [
                VertexAttribute {
                    offset: POSITION_OFFSET,
                    shader_location: 0,
                    format: AttributeFormat::Float32x3,
                },
                VertexAttribute {
                    offset: COLOR_OFFSET,
                    shader_location: 1,
                    format: AttributeFormat::Float32x3,
                },
            ],
        }
    }

    /// The record of a sampled point, from the two coordinates of the tip.
    pub fn sample(tip: [u32; 2]) -> (v: Vertex)
        ensures
            v == Vertex::spec_sample(tip),
    {
        Vertex { position: [tip[0], tip[1], 0], color: [0, 0, 0] }
    }
}

} // verus!
