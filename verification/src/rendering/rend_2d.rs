//! This module provides a default 2d renderer.

pub mod camera_2d;
pub mod sprite_renderer;

use vstd::prelude::*;
use super::vertex_buffer::VertexBufferSetting;
use super::vertex_buffer::VertexKind;
use super::vertex_buffer::packed_attributes;
use super::vertex_buffer::bytes_before;
use super::wgpu_state::LoadOp;
use super::wgpu_state::RenderCommandView;
use super::wgpu_state::RenderPass;
use super::wgpu_state::ResourceError;
use super::wgpu_state::WgpuState;
use super::GpuBackend;
use crate::arena::ArenaKey;
use crate::context::EngineContext;
use crate::utils::unwrap_ref;
use camera_2d::Camera2d;
use camera_2d::CameraParameters;

verus! {

/// The number of indices of the quad that the sample is drawn with: two
/// triangles.
pub const SAMPLE_INDEX_COUNT: u32 = 6;

/// The number of instances of the quad that the sample is drawn with.
pub const SAMPLE_INSTANCE_COUNT: u32 = 3;

/// The commands that draw the sample texture: the pipeline, the bind group
/// of the texture in slot 0 and that of the camera in slot 1, the vertices
/// of the quad in slot 0 and the instances in slot 1, the indices, and one
/// indexed draw of all instances.
pub open spec fn sample_texture_commands(
    pipeline_key: ArenaKey,
    texture_bind_group_key: ArenaKey,
    camera_bind_group_key: ArenaKey,
) -> Seq<RenderCommandView> {
    seq![
        RenderCommandView::SetPipeline { pipeline_key },
        RenderCommandView::SetBindGroup {
            index: 0,
            bind_group_key: texture_bind_group_key,
            offsets: Seq::<u32>::empty(),
        },
        RenderCommandView::SetBindGroup {
            index: 1,
            bind_group_key: camera_bind_group_key,
            offsets: Seq::<u32>::empty(),
        },
        RenderCommandView::SetVertexBuffer { slot: 0 },
        RenderCommandView::SetVertexBuffer { slot: 1 },
        RenderCommandView::SetIndexBuffer,
        RenderCommandView::DrawIndexed {
            indices: 0..SAMPLE_INDEX_COUNT,
            base_vertex: 0,
            instances: 0..SAMPLE_INSTANCE_COUNT,
        },
    ]
}

/// Default 2D renderer component.
///
/// Needs rendering system to be initialized.
pub struct Renderer2d<G: GpuBackend> {
    texture_bind_group_layout: G::BindGroupLayout,
    pipeline_key: ArenaKey,
    camera: Camera2d<G>,
}

impl<G: GpuBackend> Renderer2d<G> {
    /// The key of the pipeline of the renderer.
    pub closed spec fn pipeline(&self) -> ArenaKey {
        self.pipeline_key
    }

    /// The layout of the bind groups of the renderer's textures.
    pub closed spec fn texture_layout(&self) -> G::BindGroupLayout {
        self.texture_bind_group_layout
    }

    /// The camera of the renderer.
    pub closed spec fn camera_of(&self) -> Camera2d<G> {
        self.camera
    }

    /// The settings of the two vertex buffers of the renderer's pipeline:
    /// the vertices of a quad at the shader locations 0 and 1, and the
    /// model matrices of the instances at the locations 2 to 5.
    pub fn vertex_buffers() -> (settings: Vec<VertexBufferSetting>)
        ensures
            settings@.len() == 2,
            settings@[0].stride == bytes_before(VertexKind::Vertex2d.formats(), 2),
            settings@[0].step_mode == VertexKind::Vertex2d.step_mode(),
            settings@[0].attributes@ == packed_attributes(VertexKind::Vertex2d.formats(), 0),
            settings@[1].stride == bytes_before(VertexKind::InstanceData.formats(), 4),
            settings@[1].step_mode == VertexKind::InstanceData.step_mode(),
            settings@[1].attributes@ == packed_attributes(VertexKind::InstanceData.formats(), 2),
    {
        let mut settings: Vec<VertexBufferSetting> = Vec::new();
        settings.push(VertexKind::Vertex2d.buffer_descriptor(0..2));
        settings.push(VertexKind::InstanceData.buffer_descriptor(2..6));
        settings
    }

    /// The renderer with the layout of its textures' bind groups, the key
    /// of its pipeline and its camera.
    pub fn new(
        texture_bind_group_layout: G::BindGroupLayout,
        pipeline_key: ArenaKey,
        camera: Camera2d<G>,
    ) -> (renderer: Self)
        ensures
            renderer.texture_layout() == texture_bind_group_layout,
            renderer.pipeline() == pipeline_key,
            renderer.camera_of() == camera,
    {
        Renderer2d { texture_bind_group_layout, pipeline_key, camera }
    }

    /// The camera of the renderer.
    pub fn camera(&self) -> (camera: &Camera2d<G>)
        ensures
            *camera == self.camera_of(),
    {
        &self.camera
    }

    /// The camera of the renderer, to set its parameters.
    pub fn camera_mut(&mut self) -> (camera: &mut Camera2d<G>)
        ensures
            *camera == old(self).camera_of(),
            final(self).camera_of() == *final(camera),
            final(self).pipeline() == old(self).pipeline(),
            final(self).texture_layout() == old(self).texture_layout(),
    {
        &mut self.camera
    }

    /// The layout of the bind groups of the renderer's textures.
    pub fn texture_bind_group_layout(&self) -> (layout: &G::BindGroupLayout)
        ensures
            *layout == self.texture_layout(),
    {
        &self.texture_bind_group_layout
    }

    /// The key of the pipeline of the renderer.
    pub fn pipeline_key(&self) -> (key: ArenaKey)
        ensures
            key == self.pipeline(),
    {
        self.pipeline_key
    }

    /// Tells the camera the inner size of the window and updates it: see
    /// `Camera2d::update()`.
    pub fn update(&mut self, ctx: &mut EngineContext<G>) -> (recompute: Option<CameraParameters>)
        requires
            old(ctx).rendering_system is Some,
        ensures
            *final(ctx) == *old(ctx),
            recompute == old(self).camera_of()@.fed_screen_size(
                old(ctx).rendering_system->0.wgpu_state()@.window_inner_size().width,
                old(ctx).rendering_system->0.wgpu_state()@.window_inner_size().height,
            ).recomputed(),
            final(self).camera_of()@ == old(self).camera_of()@.fed_screen_size(
                old(ctx).rendering_system->0.wgpu_state()@.window_inner_size().width,
                old(ctx).rendering_system->0.wgpu_state()@.window_inner_size().height,
            ).updated(),
            final(self).camera_of().bind_group_key() == old(self).camera_of().bind_group_key(),
            final(self).pipeline() == old(self).pipeline(),
            final(self).texture_layout() == old(self).texture_layout(),
    {
        let size = unwrap_ref(&ctx.rendering_system).state().window_inner_size();
        self.camera.feed_screen_size(size.width, size.height);
        self.camera.update()
    }

    /// Records the render pass that draws the sample texture over what the
    /// target of the frame holds. It fails if the key of the pipeline, of
    /// the bind group of the texture or of the bind group of the camera
    /// resolves to nothing, in this order.
    ///
    /// You may obtain a new `texture_bind_group_key` by adding the bind
    /// group of a texture to the state of the graphics device.
    pub fn render_sample_texture(&self, ctx: &EngineContext<G>, texture_bind_group_key: ArenaKey) -> (pass:
        Result<RenderPass, ResourceError>)
        requires
            ctx.rendering_system is Some,
        ensures
            ({
                let state = ctx.rendering_system->0.wgpu_state()@;
                if !state.render_pipelines.live.contains_key(self.pipeline()) {
                    pass is Err && pass->Err_0 == ResourceError::PipelineDoesNotExist
                } else if !state.bind_groups.live.contains_key(texture_bind_group_key)
                    || !state.bind_groups.live.contains_key(self.camera_of().bind_group_key()) {
                    pass is Err && pass->Err_0 == ResourceError::BindGroupDoesNotExist
                } else {
                    &&& pass is Ok
                    &&& pass->Ok_0.load_op() == LoadOp::Load
                    &&& pass->Ok_0@ == sample_texture_commands(
                        self.pipeline(),
                        texture_bind_group_key,
                        self.camera_of().bind_group_key(),
                    )
                }
            }),
    {
        let wgpu_state: &WgpuState<G> = unwrap_ref(&ctx.rendering_system).state();
        let no_offsets: Vec<u32> = Vec::new();
        let mut render_pass = wgpu_state.make_render_pass();
        match render_pass.set_pipeline(self.pipeline_key, wgpu_state) {
            Ok(_) => {},
            Err(e) => {
                return Err(e);
            },
        }
        match render_pass.set_bind_group(0, texture_bind_group_key, no_offsets.as_slice(), wgpu_state) {
            Ok(_) => {},
            Err(e) => {
                return Err(e);
            },
        }
        match render_pass.set_bind_group(
            1,
            self.camera.camera_bind_group_key(),
            no_offsets.as_slice(),
            wgpu_state,
        ) {
            Ok(_) => {},
            Err(e) => {
                return Err(e);
            },
        }
        render_pass.set_vertex_buffer(0);
        render_pass.set_vertex_buffer(1);
        render_pass.set_index_buffer();
        render_pass.draw_indexed(0..SAMPLE_INDEX_COUNT, 0, 0..SAMPLE_INSTANCE_COUNT);
        assert(render_pass@ =~= sample_texture_commands(
            self.pipeline(),
            texture_bind_group_key,
            self.camera_of().bind_group_key(),
        ));
        Ok(render_pass)
    }
}

} // verus!
