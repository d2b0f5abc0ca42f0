//! The state of the graphics device that the engine keeps: the
//! configuration of the presentation surface and the arenas of textures,
//! bind groups and render pipelines.

use std::ops::Range;
use vstd::prelude::*;
use vstd::slice::slice_to_vec;
use super::shaders::spirv_module;
use super::shaders::Shader;
use super::shaders::ShaderError;
use super::vertex_buffer::VertexBufferSetting;
use super::wgpu_pipeline::BuildError;
use super::wgpu_pipeline::TextureFormat;
use super::GpuBackend;
use crate::arena::Arena;
use crate::arena::ArenaKey;
use crate::arena::ArenaState;
use crate::windowing::PhysicalSize;

verus! {

/// When the images of the surface are presented.
#[derive(Debug, Copy, Clone, PartialEq, Eq, Hash, Structural)]
pub enum PresentMode {
    /// Wait for the vertical blank.
    Fifo,
    Mailbox,
    Immediate,
}

/// The configuration of the presentation surface. Its images are used as
/// render attachments.
#[derive(Debug, Copy, Clone, PartialEq, Eq, Hash, Structural)]
pub struct SurfaceConfiguration {
    pub format: TextureFormat,
    pub width: u32,
    pub height: u32,
    pub present_mode: PresentMode,
}

/// A size of the surface: both of its dimensions are greater than zero.
#[derive(Debug, Copy, Clone)]
pub struct SurfaceSize {
    width: u32,
    height: u32,
}

impl SurfaceSize {
    #[verifier::type_invariant]
    spec fn positive(self) -> bool {
        self.width > 0 && self.height > 0
    }

    /// The size in pixels.
    pub closed spec fn view(&self) -> PhysicalSize {
        PhysicalSize { width: self.width, height: self.height }
    }

    /// The size of a surface of the given dimensions, if there is one: a
    /// surface has no dimension of zero.
    pub fn new(size: PhysicalSize) -> (surface_size: Option<Self>)
        ensures
            size.has_area() ==> surface_size is Some && surface_size->0@ == size,
            !size.has_area() ==> surface_size is None,
    {
        if size.width > 0 && size.height > 0 {
            Some(SurfaceSize { width: size.width, height: size.height })
        } else {
            None
        }
    }

    /// The size in pixels.
    pub fn get(&self) -> (size: PhysicalSize)
        ensures
            size == self@,
            size.has_area(),
    {
        proof {
            use_type_invariant(self);
        }
        PhysicalSize { width: self.width, height: self.height }
    }
}

/// How the acquisition of the graphics device went.
pub enum GpuAcquisition<D> {
    /// No adapter could be obtained.
    NoAdapter,
    /// The adapter granted no device.
    NoDevice,
    /// The device is there; the surface may have a format that it prefers
    /// with this adapter.
    Acquired { gpu: D, preferred_format: Option<TextureFormat> },
}

/// Why there is no state of the graphics device.
#[derive(Debug, Copy, Clone, PartialEq, Eq, Hash, Structural)]
pub enum InitError {
    AdapterNotFound,
    DeviceNotGranted,
    NoPreferredFormat,
    /// The window has a dimension of zero, and so would the surface.
    ZeroSizedWindow,
}

/// Why a resize was refused.
#[derive(Debug, Copy, Clone, PartialEq, Eq, Hash, Structural)]
pub enum ResizeError {
    /// A dimension of the new size is zero.
    ZeroSize,
}

/// The kind of the arena of textures.
pub const TEXTURES: u16 = 1;

/// The kind of the arena of bind groups.
pub const BIND_GROUPS: u16 = 2;

/// The kind of the arena of render pipelines.
pub const RENDER_PIPELINES: u16 = 3;

/// A key that resolves to nothing: it is stale, or of another arena.
#[derive(Debug, Copy, Clone, PartialEq, Eq, Hash, Structural)]
pub enum ResourceError {
    TextureDoesNotExist,
    BindGroupDoesNotExist,
    PipelineDoesNotExist,
}

/// A bind group with the label that it was created under.
pub struct BindGroup<G: GpuBackend> {
    pub wgpu_bind_group: G::BindGroup,
    pub label: Option<&'static str>,
}

/// Why no render pipeline is asked for.
#[derive(Debug, Copy, Clone, PartialEq, Eq, Hash, Structural)]
pub enum PipelineError {
    MalformedVertexShader(ShaderError),
    MalformedFragmentShader(ShaderError),
    Build(BuildError),
}

/// What the graphics device is asked for to create a render pipeline: the
/// two shader modules, and the pipeline for the format of the surface with
/// the given vertex buffers.
pub struct PipelineRequest {
    pub vertex_label: &'static str,
    pub vertex_spirv: Vec<u32>,
    pub fragment_label: &'static str,
    pub fragment_spirv: Vec<u32>,
    pub texture_format: TextureFormat,
    pub vertex_buffers: Vec<VertexBufferSetting>,
}

/// The state of the graphics device as a value.
pub ghost struct WgpuStateView<G: GpuBackend> {
    pub gpu: G::Gpu,
    /// The configuration that the surface has or is to get. Its width and
    /// height are the inner size of the window.
    pub surface_cfg: SurfaceConfiguration,
    /// The surface has not been given its configuration yet.
    pub surface_stale: bool,
    pub textures: ArenaState<G::Texture>,
    pub bind_groups: ArenaState<BindGroup<G>>,
    pub render_pipelines: ArenaState<G::RenderPipeline>,
}

impl<G: GpuBackend> WgpuStateView<G> {
    /// The inner size of the window.
    pub open spec fn window_inner_size(self) -> PhysicalSize {
        PhysicalSize { width: self.surface_cfg.width, height: self.surface_cfg.height }
    }

    /// The state after the window took the size `new_inner_size`, which has
    /// no dimension of zero: the surface is to be configured anew.
    pub open spec fn resized(self, new_inner_size: PhysicalSize) -> WgpuStateView<G> {
        WgpuStateView {
            surface_cfg: SurfaceConfiguration {
                width: new_inner_size.width,
                height: new_inner_size.height,
                ..self.surface_cfg
            },
            surface_stale: true,
            ..self
        }
    }
}

/// Owns the graphics device and the presentation surface, keeps the
/// configuration of the surface equal to the inner size of the window, and
/// keeps the textures, bind groups and render pipelines behind keys.
pub struct WgpuState<G: GpuBackend> {
    gpu: G::Gpu,
    size: SurfaceSize,
    format: TextureFormat,
    present_mode: PresentMode,
    surface_stale: bool,
    textures: Arena<G::Texture, TEXTURES>,
    bind_groups: Arena<BindGroup<G>, BIND_GROUPS>,
    render_pipelines: Arena<G::RenderPipeline, RENDER_PIPELINES>,
}

impl<G: GpuBackend> WgpuState<G> {
    /// The state as a value.
    pub closed spec fn view(&self) -> WgpuStateView<G> {
        WgpuStateView {
            gpu: self.gpu,
            surface_cfg: SurfaceConfiguration {
                format: self.format,
                width: self.size@.width,
                height: self.size@.height,
                present_mode: self.present_mode,
            },
            surface_stale: self.surface_stale,
            textures: self.textures.state(),
            bind_groups: self.bind_groups.state(),
            render_pipelines: self.render_pipelines.state(),
        }
    }

    /// Why there is no state for a window of the given inner size after
    /// the given acquisition, if there is none.
    pub open spec fn init_error(
        window_inner_size: PhysicalSize,
        acquisition: GpuAcquisition<G::Gpu>,
    ) -> Option<InitError> {
        match acquisition {
            GpuAcquisition::NoAdapter => Some(InitError::AdapterNotFound),
            GpuAcquisition::NoDevice => Some(InitError::DeviceNotGranted),
            GpuAcquisition::Acquired { gpu, preferred_format } => if preferred_format is None {
                Some(InitError::NoPreferredFormat)
            } else if !window_inner_size.has_area() {
                Some(InitError::ZeroSizedWindow)
            } else {
                None
            },
        }
    }

    /// The first state for a window of the given inner size.
    pub open spec fn initial(
        window_inner_size: PhysicalSize,
        acquisition: GpuAcquisition<G::Gpu>,
    ) -> WgpuStateView<G>
        recommends
            Self::init_error(window_inner_size, acquisition) is None,
    {
        WgpuStateView {
            gpu: acquisition->gpu,
            surface_cfg: SurfaceConfiguration {
                format: acquisition->preferred_format->0,
                width: window_inner_size.width,
                height: window_inner_size.height,
                present_mode: PresentMode::Fifo,
            },
            surface_stale: true,
            textures: ArenaState {
                kind: TEXTURES,
                live: Map::<ArenaKey, G::Texture>::empty(),
                retired: Set::<ArenaKey>::empty(),
            },
            bind_groups: ArenaState {
                kind: BIND_GROUPS,
                live: Map::<ArenaKey, BindGroup<G>>::empty(),
                retired: Set::<ArenaKey>::empty(),
            },
            render_pipelines: ArenaState {
                kind: RENDER_PIPELINES,
                live: Map::<ArenaKey, G::RenderPipeline>::empty(),
                retired: Set::<ArenaKey>::empty(),
            },
        }
    }

    /// The state for a window of the given inner size, after the graphics
    /// device was asked for. It fails where no adapter, no device or no
    /// preferred format was obtained, and where the window has no area. The
    /// surface gets the preferred format and the size of the window, and is
    /// presented at the vertical blank. It is still to be configured. The
    /// arenas are empty.
    pub fn new(window_inner_size: PhysicalSize, acquisition: GpuAcquisition<G::Gpu>) -> (state: Result<
        Self,
        InitError,
    >)
        ensures
            match Self::init_error(window_inner_size, acquisition) {
                Some(e) => state is Err && state->Err_0 == e,
                None => state is Ok && state->Ok_0@ == Self::initial(window_inner_size, acquisition),
            },
    {
        match acquisition {
            GpuAcquisition::NoAdapter => Err(InitError::AdapterNotFound),
            GpuAcquisition::NoDevice => Err(InitError::DeviceNotGranted),
            GpuAcquisition::Acquired { gpu, preferred_format } => {
                let format = match preferred_format {
                    Some(format) => format,
                    None => {
                        return Err(InitError::NoPreferredFormat);
                    },
                };
                let size = match SurfaceSize::new(window_inner_size) {
                    Some(size) => size,
                    None => {
                        return Err(InitError::ZeroSizedWindow);
                    },
                };
                Ok(
                    WgpuState {
                        gpu,
                        size,
                        format,
                        present_mode: PresentMode::Fifo,
                        surface_stale: true,
                        textures: Arena::new(),
                        bind_groups: Arena::new(),
                        render_pipelines: Arena::new(),
                    },
                )
            },
        }
    }

    /// Takes note of a new inner size of the window. A size with a
    /// dimension of zero is refused and changes nothing; any other size
    /// becomes the size of the surface, which is then to be configured
    /// anew.
    pub fn resize(&mut self, new_inner_size: PhysicalSize) -> (resized: Result<(), ResizeError>)
        ensures
            !new_inner_size.has_area() ==> resized == Err::<(), ResizeError>(ResizeError::ZeroSize)
                && *final(self) == *old(self),
            new_inner_size.has_area() ==> resized is Ok && final(self)@ == old(self)@.resized(
                new_inner_size,
            ),
    {
        match SurfaceSize::new(new_inner_size) {
            Some(size) => {
                self.size = size;
                self.surface_stale = true;
                Ok(())
            },
            None => Err(ResizeError::ZeroSize),
        }
    }

    /// The inner size of the window. No dimension of it is zero.
    pub fn window_inner_size(&self) -> (size: PhysicalSize)
        ensures
            size == self@.window_inner_size(),
            size.has_area(),
    {
        self.size.get()
    }

    /// The configuration that the surface has or is to get. No dimension of
    /// it is zero.
    pub fn surface_configuration(&self) -> (cfg: SurfaceConfiguration)
        ensures
            cfg == self@.surface_cfg,
            cfg.width > 0,
            cfg.height > 0,
    {
        let size = self.size.get();
        SurfaceConfiguration {
            format: self.format,
            width: size.width,
            height: size.height,
            present_mode: self.present_mode,
        }
    }

    /// Hands out the configuration that the surface is to get, if it has
    /// not been given it yet, and takes it as given from then on. The
    /// configuration has no dimension of zero.
    pub fn take_surface_configuration(&mut self) -> (cfg: Option<SurfaceConfiguration>)
        ensures
            cfg == if old(self)@.surface_stale {
                Some(old(self)@.surface_cfg)
            } else {
                None
            },
            cfg matches Some(c) ==> c.width > 0 && c.height > 0,
            final(self)@ == (WgpuStateView { surface_stale: false, ..old(self)@ }),
    {
        if self.surface_stale {
            self.surface_stale = false;
            Some(self.surface_configuration())
        } else {
            None
        }
    }

    /// Has the surface configured anew before it is used again.
    pub fn invalidate_surface(&mut self)
        ensures
            final(self)@ == (WgpuStateView { surface_stale: true, ..old(self)@ }),
    {
        self.surface_stale = true;
    }

    /// The graphics device.
    pub fn gpu(&self) -> (gpu: &G::Gpu)
        ensures
            *gpu == self@.gpu,
    {
        &self.gpu
    }

    /// The graphics device, to work with.
    pub fn gpu_mut(&mut self) -> (gpu: &mut G::Gpu)
        ensures
            *gpu == old(self)@.gpu,
            final(self)@ == (WgpuStateView { gpu: *final(gpu), ..old(self)@ }),
    {
        &mut self.gpu
    }

    /// Checks the two shaders of a pipeline and says what the graphics
    /// device is to create: it fails if the bytecode of a shader is no
    /// SPIR-V module, that of the vertex shader first.
    pub fn prepare_render_pipeline(
        &self,
        vert_shader: &Shader,
        frag_shader: &Shader,
        vertex_buffers: Vec<VertexBufferSetting>,
    ) -> (request: Result<PipelineRequest, PipelineError>)
        ensures
            match spirv_module(vert_shader@) {
                Err(e) => request is Err && request->Err_0 == PipelineError::MalformedVertexShader(e),
                Ok(vertex_words) => match spirv_module(frag_shader@) {
                    Err(e) => request is Err && request->Err_0
                        == PipelineError::MalformedFragmentShader(e),
                    Ok(fragment_words) => {
                        &&& request is Ok
                        &&& request->Ok_0.vertex_label@ == "Vert Shader"@
                        &&& request->Ok_0.vertex_spirv@ == vertex_words
                        &&& request->Ok_0.fragment_label@ == "Frag Shader"@
                        &&& request->Ok_0.fragment_spirv@ == fragment_words
                        &&& request->Ok_0.texture_format == self@.surface_cfg.format
                        &&& request->Ok_0.vertex_buffers == vertex_buffers
                    },
                },
            },
    {
        let vertex_spirv = match vert_shader.spirv_words() {
            Ok(words) => words,
            Err(e) => {
                return Err(PipelineError::MalformedVertexShader(e));
            },
        };
        let fragment_spirv = match frag_shader.spirv_words() {
            Ok(words) => words,
            Err(e) => {
                return Err(PipelineError::MalformedFragmentShader(e));
            },
        };
        Ok(
            PipelineRequest {
                vertex_label: "Vert Shader",
                vertex_spirv,
                fragment_label: "Frag Shader",
                fragment_spirv,
                texture_format: self.format,
                vertex_buffers,
            },
        )
    }

    /// Puts the render pipeline that was built into the arena and returns
    /// its key, or hands on why none was built.
    pub fn add_new_render_pipeline(&mut self, built: Result<G::RenderPipeline, BuildError>) -> (key:
        Result<ArenaKey, PipelineError>)
        ensures
            match built {
                Ok(pipeline) => {
                    &&& key is Ok
                    &&& old(self)@.render_pipelines.inserted(
                        pipeline,
                        key->Ok_0,
                        final(self)@.render_pipelines,
                    )
                    &&& final(self)@ == (WgpuStateView {
                        render_pipelines: final(self)@.render_pipelines,
                        ..old(self)@
                    })
                },
                Err(e) => key is Err && key->Err_0 == PipelineError::Build(e) && *final(self) == *old(self),
            },
    {
        match built {
            Ok(pipeline) => Ok(self.render_pipelines.insert(pipeline)),
            Err(e) => Err(PipelineError::Build(e)),
        }
    }

    /// Puts a texture that was created and filled into the arena and
    /// returns its key.
    pub fn add_new_texture(&mut self, texture: G::Texture) -> (key: ArenaKey)
        ensures
            old(self)@.textures.inserted(texture, key, final(self)@.textures),
            final(self)@ == (WgpuStateView { textures: final(self)@.textures, ..old(self)@ }),
    {
        self.textures.insert(texture)
    }

    /// Puts a bind group that was created into the arena, with its label,
    /// and returns its key.
    pub fn add_new_bind_group(&mut self, wgpu_bind_group: G::BindGroup, label: Option<&'static str>) -> (key:
        ArenaKey)
        ensures
            old(self)@.bind_groups.inserted(
                BindGroup { wgpu_bind_group, label },
                key,
                final(self)@.bind_groups,
            ),
            final(self)@ == (WgpuStateView { bind_groups: final(self)@.bind_groups, ..old(self)@ }),
    {
        self.bind_groups.insert(BindGroup { wgpu_bind_group, label })
    }

    /// The texture at `key`, or the error that it does not exist.
    pub fn texture(&self, key: ArenaKey) -> (texture: Result<&G::Texture, ResourceError>)
        ensures
            texture == if self@.textures.live.contains_key(key) {
                Ok::<&G::Texture, ResourceError>(&self@.textures.live[key])
            } else {
                Err::<&G::Texture, ResourceError>(ResourceError::TextureDoesNotExist)
            },
            key.arena_kind() != TEXTURES ==> texture is Err,
    {
        match self.textures.get(key) {
            Some(texture) => Ok(texture),
            None => Err(ResourceError::TextureDoesNotExist),
        }
    }

    /// The bind group at `key`, or the error that it does not exist.
    pub fn bind_group(&self, key: ArenaKey) -> (bind_group: Result<&BindGroup<G>, ResourceError>)
        ensures
            bind_group == if self@.bind_groups.live.contains_key(key) {
                Ok::<&BindGroup<G>, ResourceError>(&self@.bind_groups.live[key])
            } else {
                Err::<&BindGroup<G>, ResourceError>(ResourceError::BindGroupDoesNotExist)
            },
            key.arena_kind() != BIND_GROUPS ==> bind_group is Err,
    {
        match self.bind_groups.get(key) {
            Some(bind_group) => Ok(bind_group),
            None => Err(ResourceError::BindGroupDoesNotExist),
        }
    }

    /// The render pipeline at `key`, or the error that it does not exist.
    pub fn render_pipeline(&self, key: ArenaKey) -> (pipeline: Result<
        &G::RenderPipeline,
        ResourceError,
    >)
        ensures
            pipeline == if self@.render_pipelines.live.contains_key(key) {
                Ok::<&G::RenderPipeline, ResourceError>(&self@.render_pipelines.live[key])
            } else {
                Err::<&G::RenderPipeline, ResourceError>(ResourceError::PipelineDoesNotExist)
            },
            key.arena_kind() != RENDER_PIPELINES ==> pipeline is Err,
    {
        match self.render_pipelines.get(key) {
            Some(pipeline) => Ok(pipeline),
            None => Err(ResourceError::PipelineDoesNotExist),
        }
    }
}

/// What becomes of the content of the target when a render pass begins.
#[derive(Debug, Copy, Clone, PartialEq, Eq, Hash, Structural)]
pub enum LoadOp {
    /// The target is cleared to the colour of the background.
    Clear,
    /// The target keeps what it holds.
    Load,
}

/// A command of a render pass.
#[derive(Debug, PartialEq, Eq)]
pub enum RenderCommand {
    SetPipeline { pipeline_key: ArenaKey },
    SetBindGroup { index: u32, bind_group_key: ArenaKey, offsets: Vec<u32> },
    /// Binds the whole of a vertex buffer of the caller to a slot.
    SetVertexBuffer { slot: u32 },
    /// Binds the whole of the index buffer of the caller.
    SetIndexBuffer,
    Draw { vertices: Range<u32>, instances: Range<u32> },
    DrawIndexed { indices: Range<u32>, base_vertex: i32, instances: Range<u32> },
}

/// A command of a render pass as a value.
pub ghost enum RenderCommandView {
    SetPipeline { pipeline_key: ArenaKey },
    SetBindGroup { index: u32, bind_group_key: ArenaKey, offsets: Seq<u32> },
    SetVertexBuffer { slot: u32 },
    SetIndexBuffer,
    Draw { vertices: Range<u32>, instances: Range<u32> },
    DrawIndexed { indices: Range<u32>, base_vertex: i32, instances: Range<u32> },
}

impl RenderCommand {
    pub open spec fn view(&self) -> RenderCommandView {
        match *self {
            RenderCommand::SetPipeline { pipeline_key } => RenderCommandView::SetPipeline {
                pipeline_key,
            },
            RenderCommand::SetBindGroup {
                index,
                bind_group_key,
                offsets,
            } => RenderCommandView::SetBindGroup { index, bind_group_key, offsets: offsets@ },
            RenderCommand::SetVertexBuffer { slot } => RenderCommandView::SetVertexBuffer { slot },
            RenderCommand::SetIndexBuffer => RenderCommandView::SetIndexBuffer,
            RenderCommand::Draw { vertices, instances } => RenderCommandView::Draw {
                vertices,
                instances,
            },
            RenderCommand::DrawIndexed {
                indices,
                base_vertex,
                instances,
            } => RenderCommandView::DrawIndexed { indices, base_vertex, instances },
        }
    }
}

/// The commands of one render pass on the target of the frame, in the
/// order in which they were recorded. A pipeline or a bind group is named
/// by its key, which is checked against the arenas when the command is
/// recorded.
pub struct RenderPass {
    load: LoadOp,
    commands: Vec<RenderCommand>,
}

impl RenderPass {
    /// What becomes of the content of the target when the pass begins.
    pub closed spec fn load_op(&self) -> LoadOp {
        self.load
    }

    /// The commands recorded so far.
    pub closed spec fn view(&self) -> Seq<RenderCommandView> {
        Seq::new(self.commands@.len(), |i: int| self.commands@[i]@)
    }

    /// A render pass without commands.
    pub fn new(load: LoadOp) -> (pass: Self)
        ensures
            pass.load_op() == load,
            pass@ == Seq::<RenderCommandView>::empty(),
    {
        let pass = RenderPass { load, commands: Vec::new() };
        pass
    }

    /// What becomes of the content of the target when the pass begins.
    pub fn load(&self) -> (load: LoadOp)
        ensures
            load == self.load_op(),
    {
        self.load
    }

    /// The commands recorded so far.
    pub fn commands(&self) -> (commands: &Vec<RenderCommand>)
        ensures
            commands@.len() == self@.len(),
            forall|i: int| 0 <= i < commands@.len() ==> (#[trigger] commands@[i])@ == self@[i],
    {
        &self.commands
    }

    fn record(&mut self, command: RenderCommand)
        ensures
            final(self)@ == old(self)@.push(command@),
            final(self).load_op() == old(self).load_op(),
    {
        self.commands.push(command);
        assert(self@ =~= old(self)@.push(command@));
    }

    /// Sets the bind group at `bind_group_key` of the bind group arena of
    /// `wgpu_state` for the slot `index`. Fails, recording nothing, if the
    /// key resolves to no bind group.
    pub fn set_bind_group<G: GpuBackend>(
        &mut self,
        index: u32,
        bind_group_key: ArenaKey,
        offsets: &[u32],
        wgpu_state: &WgpuState<G>,
    ) -> (set: Result<(), ResourceError>)
        ensures
            final(self).load_op() == old(self).load_op(),
            bind_group_key.arena_kind() != BIND_GROUPS ==> set is Err,
            wgpu_state@.bind_groups.live.contains_key(bind_group_key) ==> set is Ok && final(self)@
                == old(self)@.push(
                RenderCommandView::SetBindGroup { index, bind_group_key, offsets: offsets@ },
            ),
            !wgpu_state@.bind_groups.live.contains_key(bind_group_key) ==> set == Err::<
                (),
                ResourceError,
            >(ResourceError::BindGroupDoesNotExist) && final(self)@ == old(self)@,
    {
        match wgpu_state.bind_group(bind_group_key) {
            Ok(_) => {
                self.record(
                    RenderCommand::SetBindGroup { index, bind_group_key, offsets: slice_to_vec(offsets) },
                );
                Ok(())
            },
            Err(e) => Err(e),
        }
    }

    /// Sets the render pipeline at `pipeline_key` of the pipeline arena of
    /// `wgpu_state`. Fails, recording nothing, if the key resolves to no
    /// pipeline.
    pub fn set_pipeline<G: GpuBackend>(&mut self, pipeline_key: ArenaKey, wgpu_state: &WgpuState<G>) -> (set:
        Result<(), ResourceError>)
        ensures
            final(self).load_op() == old(self).load_op(),
            pipeline_key.arena_kind() != RENDER_PIPELINES ==> set is Err,
            wgpu_state@.render_pipelines.live.contains_key(pipeline_key) ==> set is Ok && final(self)@
                == old(self)@.push(RenderCommandView::SetPipeline { pipeline_key }),
            !wgpu_state@.render_pipelines.live.contains_key(pipeline_key) ==> set == Err::<
                (),
                ResourceError,
            >(ResourceError::PipelineDoesNotExist) && final(self)@ == old(self)@,
    {
        match wgpu_state.render_pipeline(pipeline_key) {
            Ok(_) => {
                self.record(RenderCommand::SetPipeline { pipeline_key });
                Ok(())
            },
            Err(e) => Err(e),
        }
    }

    /// Binds the whole of a vertex buffer to a slot.
    pub fn set_vertex_buffer(&mut self, slot: u32)
        ensures
            final(self).load_op() == old(self).load_op(),
            final(self)@ == old(self)@.push(RenderCommandView::SetVertexBuffer { slot }),
    {
        self.record(RenderCommand::SetVertexBuffer { slot });
    }

    /// Binds the whole of the index buffer.
    pub fn set_index_buffer(&mut self)
        ensures
            final(self).load_op() == old(self).load_op(),
            final(self)@ == old(self)@.push(RenderCommandView::SetIndexBuffer),
    {
        self.record(RenderCommand::SetIndexBuffer);
    }

    /// Draws the given vertices, once for each of the given instances.
    pub fn draw(&mut self, vertices: Range<u32>, instances: Range<u32>)
        ensures
            final(self).load_op() == old(self).load_op(),
            final(self)@ == old(self)@.push(RenderCommandView::Draw { vertices, instances }),
    {
        self.record(RenderCommand::Draw { vertices, instances });
    }

    /// Draws the vertices that the given indices name, once for each of the
    /// given instances.
    pub fn draw_indexed(&mut self, indices: Range<u32>, base_vertex: i32, instances: Range<u32>)
        ensures
            final(self).load_op() == old(self).load_op(),
            final(self)@ == old(self)@.push(
                RenderCommandView::DrawIndexed { indices, base_vertex, instances },
            ),
    {
        self.record(RenderCommand::DrawIndexed { indices, base_vertex, instances });
    }
}

impl<G: GpuBackend> WgpuState<G> {
    /// A render pass that clears the target first.
    pub fn make_clear_render_pass(&self) -> (pass: RenderPass)
        ensures
            pass.load_op() == LoadOp::Clear,
            pass@ == Seq::<RenderCommandView>::empty(),
    {
        RenderPass::new(LoadOp::Clear)
    }

    /// A render pass that draws over what the target holds.
    pub fn make_render_pass(&self) -> (pass: RenderPass)
        ensures
            pass.load_op() == LoadOp::Load,
            pass@ == Seq::<RenderCommandView>::empty(),
    {
        RenderPass::new(LoadOp::Load)
    }
}

} // verus!
