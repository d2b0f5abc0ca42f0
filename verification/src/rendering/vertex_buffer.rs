//! The layouts of the vertex buffers: what the pipeline has to know of the
//! kinds of vertices that the engine draws.

use std::ops::Range;
use vstd::prelude::*;

verus! {

/// Whether a buffer is stepped through per vertex or per instance.
#[derive(Debug, Copy, Clone, PartialEq, Eq, Hash, Structural)]
pub enum VertexStepMode {
    Vertex,
    Instance,
}

/// The format of a vertex attribute: so many 32 bit floating point numbers.
#[derive(Debug, Copy, Clone, PartialEq, Eq, Hash, Structural)]
pub enum VertexFormat {
    Float32x2,
    Float32x3,
    Float32x4,
}

impl VertexFormat {
    /// The number of bytes that an attribute of this format takes.
    pub open spec fn byte_size(self) -> nat {
        match self {
            VertexFormat::Float32x2 => 8,
            VertexFormat::Float32x3 => 12,
            VertexFormat::Float32x4 => 16,
        }
    }

    /// The number of bytes that an attribute of this format takes.
    pub fn size(&self) -> (size: u64)
        ensures
            size == self.byte_size(),
    {
        match self {
            VertexFormat::Float32x2 => 8,
            VertexFormat::Float32x3 => 12,
            VertexFormat::Float32x4 => 16,
        }
    }
}

/// One attribute of a vertex: where it starts within the vertex, its format
/// and the location under which the shader finds it.
#[derive(Debug, Copy, Clone, PartialEq, Eq, Hash, Structural)]
pub struct VertexAttribute {
    pub offset: u64,
    pub format: VertexFormat,
    pub shader_location: u32,
}

/// Settings corresponding to a single vertex buffer of a pipeline.
#[derive(Debug, PartialEq, Eq)]
pub struct VertexBufferSetting {
    pub stride: u64,
    pub step_mode: VertexStepMode,
    pub attributes: Vec<VertexAttribute>,
}

/// The bytes that the first `count` of `formats` take together.
pub open spec fn bytes_before(formats: Seq<VertexFormat>, count: int) -> nat
    decreases count,
{
    if count <= 0 {
        0
    } else {
        bytes_before(formats, count - 1) + formats[count - 1].byte_size()
    }
}

/// The attributes of a vertex whose fields have the given formats and lie
/// one after the other without gaps, at shader locations from `start` on.
pub open spec fn packed_attributes(formats: Seq<VertexFormat>, start: u32) -> Seq<VertexAttribute> {
    Seq::new(
        formats.len(),
        |i: int|
            VertexAttribute {
                offset: bytes_before(formats, i) as u64,
                format: formats[i],
                shader_location: (start + i) as u32,
            },
    )
}

/// No attribute takes more than 16 bytes.
pub proof fn lemma_bytes_before_bounded(formats: Seq<VertexFormat>, count: int)
    requires
        0 <= count <= formats.len(),
    ensures
        bytes_before(formats, count) <= 16 * count,
    decreases count,
{
    if count > 0 {
        lemma_bytes_before_bounded(formats, count - 1);
    }
}

/// The kinds of vertices that the engine draws.
#[derive(Debug, Copy, Clone, PartialEq, Eq, Hash, Structural)]
pub enum VertexKind {
    /// A position in the plane and texture coordinates.
    Vertex2d,
    /// A position in space and a colour.
    ColoredVertex,
    /// A position in space and texture coordinates.
    TexturedVertex,
    /// The model matrix of an instance: four columns of four numbers.
    InstanceData,
}

impl VertexKind {
    /// The formats of the fields of a vertex of this kind, in their order.
    pub open spec fn formats(self) -> Seq<VertexFormat> {
        match self {
            VertexKind::Vertex2d => seq![VertexFormat::Float32x2, VertexFormat::Float32x2],
            VertexKind::ColoredVertex => seq![VertexFormat::Float32x3, VertexFormat::Float32x3],
            VertexKind::TexturedVertex => seq![VertexFormat::Float32x3, VertexFormat::Float32x2],
            VertexKind::InstanceData => seq![
                VertexFormat::Float32x4,
                VertexFormat::Float32x4,
                VertexFormat::Float32x4,
                VertexFormat::Float32x4,
            ],
        }
    }

    /// How a buffer of vertices of this kind is stepped through.
    pub open spec fn step_mode(self) -> VertexStepMode {
        match self {
            VertexKind::InstanceData => VertexStepMode::Instance,
            _ => VertexStepMode::Vertex,
        }
    }

    /// The number of shader locations that a vertex of this kind takes.
    pub fn location_count(self) -> (count: u32)
        ensures
            count == self.formats().len(),
    {
        match self {
            VertexKind::InstanceData => 4,
            _ => 2,
        }
    }

    fn format_list(self) -> (formats: Vec<VertexFormat>)
        ensures
            formats@ == self.formats(),
    {
        match self {
            VertexKind::Vertex2d => vec![VertexFormat::Float32x2, VertexFormat::Float32x2],
            VertexKind::ColoredVertex => vec![VertexFormat::Float32x3, VertexFormat::Float32x3],
            VertexKind::TexturedVertex => vec![VertexFormat::Float32x3, VertexFormat::Float32x2],
            VertexKind::InstanceData => vec![
                VertexFormat::Float32x4,
                VertexFormat::Float32x4,
                VertexFormat::Float32x4,
                VertexFormat::Float32x4,
            ],
        }
    }

    /// The setting of a vertex buffer that matches the layout of a vertex of
    /// this kind. The caller manages the shader locations: the range has to
    /// span as many as the kind has fields.
    pub fn buffer_descriptor(self, shader_locations: Range<u32>) -> (setting: VertexBufferSetting)
        requires
            shader_locations.start <= shader_locations.end,
            shader_locations.end - shader_locations.start == self.formats().len(),
        ensures
            setting.stride == bytes_before(self.formats(), self.formats().len() as int),
            setting.step_mode == self.step_mode(),
            setting.attributes@ == packed_attributes(self.formats(), shader_locations.start),
    {
        let formats = self.format_list();
        let start = shader_locations.start;
        let mut attributes: Vec<VertexAttribute> = Vec::new();
        let mut offset: u64 = 0;
        let mut i: usize = 0;
        while i < formats.len()
            invariant
                formats@ == self.formats(),
                formats@.len() <= 4,
                start + formats@.len() <= u32::MAX,
                i <= formats@.len(),
                offset == bytes_before(formats@, i as int),
                attributes@ == packed_attributes(formats@, start).subrange(0, i as int),
            decreases formats@.len() - i,
        {
            proof {
                lemma_bytes_before_bounded(formats@, i as int);
            }
            let format = formats[i];
            attributes.push(VertexAttribute { offset, format, shader_location: start + i as u32 });
            offset = offset + format.size();
            i += 1;
            assert(attributes@ =~= packed_attributes(formats@, start).subrange(0, i as int));
        }
        let step_mode = match self {
            VertexKind::InstanceData => VertexStepMode::Instance,
            _ => VertexStepMode::Vertex,
        };
        VertexBufferSetting { stride: offset, step_mode, attributes }
    }
}

} // verus!
