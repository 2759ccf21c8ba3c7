//! How a vertex record type describes its own layout in a vertex buffer.

use vstd::prelude::*;

verus! {

/// Scalar formats of a vertex attribute: one to four 32-bit floats.
#[derive(Clone, Copy, Debug, PartialEq, Eq, Structural)]
pub enum VertexFormat {
    Float32,
    Float32x2,
    Float32x3,
    Float32x4,
}

impl VertexFormat {
    /// Bytes that an attribute of this format occupies.
    pub open spec fn byte_size(self) -> nat {
        match self {
            VertexFormat::Float32 => 4,
            VertexFormat::Float32x2 => 8,
            VertexFormat::Float32x3 => 12,
            VertexFormat::Float32x4 => 16,
        }
    }

    /// Executable form of [`VertexFormat::byte_size`].
    pub fn size(&self) -> (bytes: u64)
        ensures
            bytes == self.byte_size(),
    {
        match self {
            VertexFormat::Float32 => 4,
            VertexFormat::Float32x2 => 8,
            VertexFormat::Float32x3 => 12,
            VertexFormat::Float32x4 => 16,
        }
    }
}

/// Whether a buffer advances once per vertex or once per instance.
#[derive(Clone, Copy, Debug, PartialEq, Eq, Structural)]
pub enum VertexStepMode {
    Vertex,
    Instance,
}

/// One attribute of a vertex record: where it starts, what it holds, and the
/// shader input it feeds.
#[derive(Clone, Copy, Debug, PartialEq, Eq, Structural)]
pub struct VertexAttribute {
    pub format: VertexFormat,
    pub offset: u64,
    pub shader_location: u32,
}

impl VertexAttribute {
    /// First byte past this attribute within its record.
    pub open spec fn end(self) -> nat {
        self.offset as nat + self.format.byte_size()
    }
}

/// Layout of the records of one vertex buffer.
#[derive(Debug, PartialEq, Eq)]
pub struct VertexBufferLayout {
    pub array_stride: u64,
    pub step_mode: VertexStepMode,
    pub attributes: Vec<VertexAttribute>,
}

impl VertexBufferLayout {
    /// A layout that a pipeline can use: every attribute lies within one
    /// record, and no two attributes feed the same shader input.
    pub open spec fn is_usable(self) -> bool {
        &&& forall|i: int|
            0 <= i < self.attributes@.len() ==> (#[trigger] self.attributes@[i]).end()
                <= self.array_stride
        &&& forall|i: int, j: int|
            0 <= i < j < self.attributes@.len() ==> (#[trigger] self.attributes@[i]).shader_location
                != (#[trigger] self.attributes@[j]).shader_location
    }

    /// A layout whose attributes follow one another without gaps from the
    /// start of the record to its end.
    pub open spec fn is_packed(self) -> bool {
        &&& self.attributes@.len() > 0
        &&& self.attributes@[0].offset == 0
        &&& forall|i: int, j: int|
            0 <= i && j == i + 1 && j < self.attributes@.len() ==> (
            #[trigger] self.attributes@[i]).end() == (#[trigger] self.attributes@[j]).offset
        &&& self.attributes@.last().end() == self.array_stride
    }
}

/// A vertex record type that can describe its own buffer layout.
pub trait Vertex {
    /// The layout of a buffer of such records.
    fn desc() -> (layout: VertexBufferLayout)
        ensures
            layout.is_usable(),
    ;
}

} // verus!
