//! Bind groups: how the data of a kind of resource is laid out for the
//! shaders, and which of its parts is bound where.
//!
//! A kind of resource describes the layout of its bind group, which is the
//! same for every resource of the kind, and says which parts of one
//! resource make up its bind group.

use vstd::prelude::*;

verus! {

/// The stage of the pipeline that sees a binding.
#[derive(Debug, Copy, Clone, PartialEq, Eq, Hash, Structural)]
pub enum ShaderStage {
    Vertex,
    Fragment,
}

/// What a binding of a layout expects.
#[derive(Debug, Copy, Clone, PartialEq, Eq, Hash, Structural)]
pub enum BindingType {
    /// A two-dimensional texture of floating point samples.
    Texture { multisampled: bool, filterable: bool },
    Sampler { filtering: bool, comparison: bool },
    /// A uniform buffer of fixed size.
    UniformBuffer { has_dynamic_offset: bool },
}

/// One binding of the layout of a bind group.
#[derive(Debug, Copy, Clone, PartialEq, Eq, Hash, Structural)]
pub struct BindGroupLayoutEntry {
    pub binding: u32,
    pub visibility: ShaderStage,
    pub ty: BindingType,
}

/// The layout of a bind group.
#[derive(Debug, PartialEq, Eq)]
pub struct BindGroupLayoutDescriptor {
    pub label: &'static str,
    pub entries: Vec<BindGroupLayoutEntry>,
}

/// The part of a resource that is bound to a binding.
#[derive(Debug, Copy, Clone, PartialEq, Eq, Hash, Structural)]
pub enum BindingResource {
    TextureView,
    Sampler,
    /// The first `size` bytes of the buffer of the resource.
    Buffer { size: u64 },
}

impl BindingResource {
    /// The resource is of the type that the binding expects.
    pub open spec fn fits(self, ty: BindingType) -> bool {
        match self {
            BindingResource::TextureView => ty is Texture,
            BindingResource::Sampler => ty is Sampler,
            BindingResource::Buffer { size } => ty is UniformBuffer,
        }
    }
}

/// One binding of a bind group.
#[derive(Debug, Copy, Clone, PartialEq, Eq, Hash, Structural)]
pub struct BindGroupEntry {
    pub binding: u32,
    pub resource: BindingResource,
}

/// What a bind group is made of.
#[derive(Debug, PartialEq, Eq)]
pub struct BindGroupDescriptor {
    pub label: &'static str,
    pub entries: Vec<BindGroupEntry>,
}

/// The number of bytes of the matrix of a camera: four by four 32 bit
/// floating point numbers.
pub const CAMERA_UNIFORM_SIZE: u64 = 64;

/// The kinds of resources that are given to the shaders in bind groups.
#[derive(Debug, Copy, Clone, PartialEq, Eq, Hash, Structural)]
pub enum BindGroupKind {
    /// A texture with its sampler, for the fragment shader.
    Texture,
    /// The matrix of a camera, for the vertex shader.
    CameraUniform,
}

impl BindGroupKind {
    /// The bindings of the layout of the kind.
    pub open spec fn layout_entries(self) -> Seq<BindGroupLayoutEntry> {
        match self {
            BindGroupKind::Texture => seq![
                BindGroupLayoutEntry {
                    binding: 0,
                    visibility: ShaderStage::Fragment,
                    ty: BindingType::Texture { multisampled: false, filterable: true },
                },
                BindGroupLayoutEntry {
                    binding: 1,
                    visibility: ShaderStage::Fragment,
                    ty: BindingType::Sampler { filtering: true, comparison: false },
                },
            ],
            BindGroupKind::CameraUniform => seq![
                BindGroupLayoutEntry {
                    binding: 0,
                    visibility: ShaderStage::Vertex,
                    ty: BindingType::UniformBuffer { has_dynamic_offset: false },
                },
            ],
        }
    }

    /// The bindings of the bind group of a resource of the kind.
    pub open spec fn group_entries(self) -> Seq<BindGroupEntry> {
        match self {
            BindGroupKind::Texture => seq![
                BindGroupEntry { binding: 0, resource: BindingResource::TextureView },
                BindGroupEntry { binding: 1, resource: BindingResource::Sampler },
            ],
            BindGroupKind::CameraUniform => seq![
                BindGroupEntry {
                    binding: 0,
                    resource: BindingResource::Buffer { size: CAMERA_UNIFORM_SIZE },
                },
            ],
        }
    }

    /// The bind group of a resource fills the layout of its kind: binding
    /// for binding, in the same order, with a part of the type that the
    /// layout expects.
    pub proof fn lemma_bind_group_fills_layout(self)
        ensures
            self.group_entries().len() == self.layout_entries().len(),
            forall|i: int|
                0 <= i < self.layout_entries().len() ==> (#[trigger] self.group_entries()[i]).binding
                    == self.layout_entries()[i].binding && self.group_entries()[i].resource.fits(
                    self.layout_entries()[i].ty,
                ),
            forall|i: int, j: int|
                0 <= i < j < self.layout_entries().len() ==> (#[trigger] self.layout_entries()[i]).binding
                    != (#[trigger] self.layout_entries()[j]).binding,
    {
    }

    /// The layout of the bind group of the kind. It is the same for every
    /// resource of the kind.
    pub fn get_wgpu_bind_group_layout_descriptor(self) -> (descriptor: BindGroupLayoutDescriptor)
        ensures
            descriptor.entries@ == self.layout_entries(),
            descriptor.label@ == (match self {
                BindGroupKind::Texture => "wgpu_texture_bind_group_layout"@,
                BindGroupKind::CameraUniform => "camera_bind_group_layout"@,
            }),
    {
        match self {
            BindGroupKind::Texture => {
                let entries = vec![
                    BindGroupLayoutEntry {
                        binding: 0,
                        visibility: ShaderStage::Fragment,
                        ty: BindingType::Texture { multisampled: false, filterable: true },
                    },
                    BindGroupLayoutEntry {
                        binding: 1,
                        visibility: ShaderStage::Fragment,
                        ty: BindingType::Sampler { filtering: true, comparison: false },
                    },
                ];
                BindGroupLayoutDescriptor { label: "wgpu_texture_bind_group_layout", entries }
            },
            BindGroupKind::CameraUniform => {
                let entries = vec![
                    BindGroupLayoutEntry {
                        binding: 0,
                        visibility: ShaderStage::Vertex,
                        ty: BindingType::UniformBuffer { has_dynamic_offset: false },
                    },
                ];
                BindGroupLayoutDescriptor { label: "camera_bind_group_layout", entries }
            },
        }
    }

    /// What the bind group of a resource of the kind is made of: which of
    /// its parts is bound to which binding of the layout.
    pub fn make_wgpu_bind_group(self) -> (descriptor: BindGroupDescriptor)
        ensures
            descriptor.entries@ == self.group_entries(),
            descriptor.label@ == (match self {
                BindGroupKind::Texture => "wgpu_texture_bind_group_for_some_specific_texture"@,
                BindGroupKind::CameraUniform => "camera_bind_group"@,
            }),
    {
        match self {
            BindGroupKind::Texture => {
                let entries = vec![
                    BindGroupEntry { binding: 0, resource: BindingResource::TextureView },
                    BindGroupEntry { binding: 1, resource: BindingResource::Sampler },
                ];
                BindGroupDescriptor {
                    label: "wgpu_texture_bind_group_for_some_specific_texture",
                    entries,
                }
            },
            BindGroupKind::CameraUniform => {
                let entries = vec![
                    BindGroupEntry {
                        binding: 0,
                        resource: BindingResource::Buffer { size: CAMERA_UNIFORM_SIZE },
                    },
                ];
                BindGroupDescriptor { label: "camera_bind_group", entries }
            },
        }
    }
}

} // verus!
