//! Building the description of a render pipeline.

use vstd::prelude::*;
use super::vertex_buffer::VertexBufferSetting;

verus! {

/// The format of the texels of a texture or of the surface.
#[derive(Debug, Copy, Clone, PartialEq, Eq, Hash, Structural)]
pub enum TextureFormat {
    Rgba8Unorm,
    Rgba8UnormSrgb,
    Bgra8Unorm,
    Bgra8UnormSrgb,
    Rgb10a2Unorm,
    Rgba16Float,
}

/// How the vertices of a draw call make up primitives.
#[derive(Debug, Copy, Clone, PartialEq, Eq, Hash, Structural)]
pub enum PrimitiveTopology {
    TriangleList,
}

/// The winding order of the vertices of a front face.
#[derive(Debug, Copy, Clone, PartialEq, Eq, Hash, Structural)]
pub enum FrontFace {
    Ccw,
    Cw,
}

/// A face of a primitive.
#[derive(Debug, Copy, Clone, PartialEq, Eq, Hash, Structural)]
pub enum Face {
    Front,
    Back,
}

/// How a fragment is blended with what the target holds.
#[derive(Debug, Copy, Clone, PartialEq, Eq, Hash, Structural)]
pub enum BlendState {
    /// The fragment replaces what the target holds.
    Replace,
}

/// Which of the builder's fields was not set when `build` was called.
#[derive(Debug, Copy, Clone, PartialEq, Eq, Hash, Structural)]
pub enum BuildError {
    MissingVertexBuffers,
    MissingLayout,
    MissingVertexShader,
    MissingFragmentShader,
    MissingTextureFormat,
}

/// What the graphics device needs to know to create the render pipeline:
/// the parts that the builder was given, and the settings that every
/// pipeline of the engine shares.
pub struct RenderPipelineDescriptor<'a, L, M> {
    pub label: &'static str,
    pub layout: L,
    pub vertex_module: M,
    pub fragment_module: M,
    /// The name of the entry point of both shaders.
    pub entry_point: &'static str,
    pub buffers: &'a Vec<VertexBufferSetting>,
    pub target_format: TextureFormat,
    pub blend: BlendState,
    pub topology: PrimitiveTopology,
    pub front_face: FrontFace,
    pub cull_mode: Option<Face>,
    pub sample_count: u32,
    pub sample_mask: u64,
    pub alpha_to_coverage_enabled: bool,
}

/// Collects the parts of a render pipeline. `L` is the type of the handle
/// of a pipeline layout, `M` that of a shader module.
pub struct PipelineBuilder<L, M> {
    pub render_pipeline_layout: Option<L>,
    pub vert_shader_module: Option<M>,
    pub frag_shader_module: Option<M>,
    pub texture_format: Option<TextureFormat>,
    pub vertex_buffer_settings: Option<Vec<VertexBufferSetting>>,
}

impl<L: Copy, M: Copy> PipelineBuilder<L, M> {
    /// A builder with nothing set.
    pub fn new() -> (builder: Self)
        ensures
            builder.render_pipeline_layout is None,
            builder.vert_shader_module is None,
            builder.frag_shader_module is None,
            builder.texture_format is None,
            builder.vertex_buffer_settings is None,
    {
        PipelineBuilder {
            render_pipeline_layout: None,
            vert_shader_module: None,
            frag_shader_module: None,
            texture_format: None,
            vertex_buffer_settings: None,
        }
    }

    pub fn set_pipeline_layout(&mut self, render_pipeline_layout: L) -> (builder: &mut Self)
        ensures
            *builder == (PipelineBuilder {
                render_pipeline_layout: Some(render_pipeline_layout),
                ..*old(self)
            }),
            *final(self) == *final(builder),
    {
        self.render_pipeline_layout = Some(render_pipeline_layout);
        self
    }

    pub fn set_vertex_shader(&mut self, vertex_shader_module: M) -> (builder: &mut Self)
        ensures
            *builder == (PipelineBuilder {
                vert_shader_module: Some(vertex_shader_module),
                ..*old(self)
            }),
            *final(self) == *final(builder),
    {
        self.vert_shader_module = Some(vertex_shader_module);
        self
    }

    pub fn set_fragment_shader(&mut self, fragment_shader_module: M) -> (builder: &mut Self)
        ensures
            *builder == (PipelineBuilder {
                frag_shader_module: Some(fragment_shader_module),
                ..*old(self)
            }),
            *final(self) == *final(builder),
    {
        self.frag_shader_module = Some(fragment_shader_module);
        self
    }

    pub fn set_texture_format(&mut self, format: TextureFormat) -> (builder: &mut Self)
        ensures
            *builder == (PipelineBuilder { texture_format: Some(format), ..*old(self) }),
            *final(self) == *final(builder),
    {
        self.texture_format = Some(format);
        self
    }

    pub fn set_vertex_buffers(&mut self, vertex_buffer_settings: Vec<VertexBufferSetting>) -> (builder:
        &mut Self)
        ensures
            *builder == (PipelineBuilder {
                vertex_buffer_settings: Some(vertex_buffer_settings),
                ..*old(self)
            }),
            *final(self) == *final(builder),
    {
        self.vertex_buffer_settings = Some(vertex_buffer_settings);
        self
    }

    /// The first of the fields, in the order in which `build` asks for them,
    /// that is not set.
    pub open spec fn first_missing(&self) -> Option<BuildError> {
        if self.vertex_buffer_settings is None {
            Some(BuildError::MissingVertexBuffers)
        } else if self.render_pipeline_layout is None {
            Some(BuildError::MissingLayout)
        } else if self.vert_shader_module is None {
            Some(BuildError::MissingVertexShader)
        } else if self.frag_shader_module is None {
            Some(BuildError::MissingFragmentShader)
        } else if self.texture_format is None {
            Some(BuildError::MissingTextureFormat)
        } else {
            None
        }
    }

    /// The description of the pipeline, if every field is set; else the
    /// first field that is missing.
    pub fn build(&self) -> (built: Result<RenderPipelineDescriptor<'_, L, M>, BuildError>)
        ensures
            match built {
                Ok(descriptor) => {
                    &&& self.first_missing() is None
                    &&& descriptor.label@ == "wgpu render pipeline"@
                    &&& Some(descriptor.layout) == self.render_pipeline_layout
                    &&& Some(descriptor.vertex_module) == self.vert_shader_module
                    &&& Some(descriptor.fragment_module) == self.frag_shader_module
                    &&& descriptor.entry_point@ == "main"@
                    &&& Some(*descriptor.buffers) == self.vertex_buffer_settings
                    &&& Some(descriptor.target_format) == self.texture_format
                    &&& descriptor.blend == BlendState::Replace
                    &&& descriptor.topology == PrimitiveTopology::TriangleList
                    &&& descriptor.front_face == FrontFace::Ccw
                    &&& descriptor.cull_mode == Some(Face::Back)
                    &&& descriptor.sample_count == 1
                    &&& descriptor.sample_mask == u64::MAX
                    &&& !descriptor.alpha_to_coverage_enabled
                },
                Err(missing) => self.first_missing() == Some(missing),
            },
    {
        let buffers = match &self.vertex_buffer_settings {
            Some(buffers) => buffers,
            None => {
                return Err(BuildError::MissingVertexBuffers);
            },
        };
        let layout = match self.render_pipeline_layout {
            Some(layout) => layout,
            None => {
                return Err(BuildError::MissingLayout);
            },
        };
        let vertex_module = match self.vert_shader_module {
            Some(module) => module,
            None => {
                return Err(BuildError::MissingVertexShader);
            },
        };
        let fragment_module = match self.frag_shader_module {
            Some(module) => module,
            None => {
                return Err(BuildError::MissingFragmentShader);
            },
        };
        let target_format = match self.texture_format {
            Some(format) => format,
            None => {
                return Err(BuildError::MissingTextureFormat);
            },
        };
        Ok(
            RenderPipelineDescriptor {
                label: "wgpu render pipeline",
                layout,
                vertex_module,
                fragment_module,
                entry_point: "main",
                buffers,
                target_format,
                blend: BlendState::Replace,
                topology: PrimitiveTopology::TriangleList,
                front_face: FrontFace::Ccw,
                cull_mode: Some(Face::Back),
                sample_count: 1,
                sample_mask: u64::MAX,
                alpha_to_coverage_enabled: false,
            },
        )
    }
}

} // verus!
