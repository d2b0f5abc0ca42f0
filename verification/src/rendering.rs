//! Rendering: the resources of the graphics device and the frame in flight.

pub mod bind_group;
pub mod frame;
pub mod rend_2d;
pub mod shaders;
pub mod vertex_buffer;
pub mod wgpu_pipeline;
pub mod wgpu_state;
pub mod wgpu_texture;

use vstd::pervasive::unreached;
use vstd::prelude::*;
use crate::context::EngineContext;
use crate::event::Event;
use crate::event::EventReceiver;
use crate::event::EventType;
use crate::utils::unwrap_mut;
use crate::windowing::PhysicalSize;
use frame::FrameRenderTarget;
use frame::FrameState;
use frame::FrtHolder;
use frame::RenderMisuse;
use wgpu_state::GpuAcquisition;
use wgpu_state::InitError;
use wgpu_state::LoadOp;
use wgpu_state::RenderCommandView;
use wgpu_state::RenderPass;
use wgpu_state::WgpuState;
use wgpu_state::WgpuStateView;

verus! {

/// The types of the objects of a graphics device. The engine keeps such
/// objects and hands them out; it never looks into one.
pub trait GpuBackend {
    /// The device with its queue, its adapter and the presentation surface.
    type Gpu;

    type Texture;

    type BindGroup;

    type BindGroupLayout;

    type RenderPipeline;

    type Buffer;

    type TextureView;

    /// An image of the surface that was acquired for presentation.
    type SurfaceFrame;

    /// A recorder of commands.
    type CommandEncoder;

    /// A function that draws elements of the overlay.
    type RenderFn;
}

/// Why the surface gave no image to render to.
#[derive(Debug, Copy, Clone, PartialEq, Eq, Hash, Structural)]
pub enum SurfaceError {
    Timeout,
    Outdated,
    Lost,
    OutOfMemory,
    /// Any other failure of the surface.
    Other,
}

impl SurfaceError {
    /// A surface that is lost or outdated may give an image once it is
    /// configured anew.
    pub open spec fn is_retryable(self) -> bool {
        self is Lost || self is Outdated
    }
}

/// Why the rendering of a frame did not start.
#[derive(Debug, Copy, Clone, PartialEq, Eq, Hash, Structural)]
pub enum StartRenderError {
    /// The render target of the frame is not free.
    Misuse(RenderMisuse),
    /// The surface gave no image but may do so once it is configured anew:
    /// configure it and start again.
    Retry,
    /// The surface gave no image.
    Surface(SurfaceError),
}

/// System that stores state and provides functions related to rendering.
pub struct RenderingSystem<G: GpuBackend> {
    state: WgpuState<G>,
    frt: FrtHolder<G>,
    retried: bool,
}

impl<G: GpuBackend> RenderingSystem<G> {
    /// The state of the graphics device.
    pub closed spec fn wgpu_state(&self) -> WgpuState<G> {
        self.state
    }

    /// Who has the render target of the frame.
    pub closed spec fn frame_state(&self) -> FrameState {
        self.frt.state()
    }

    /// The render target of the frame, where the rendering system has it.
    pub closed spec fn frame(&self) -> Option<FrameRenderTarget<G>> {
        match self.frt {
            FrtHolder::Owned(frt) => Some(frt),
            _ => None,
        }
    }

    /// The last start failed on the surface and is being tried again.
    pub closed spec fn has_retried(&self) -> bool {
        self.retried
    }

    /// Creates a new rendering system for a window of the given inner size,
    /// after the graphics device was asked for. No frame is being rendered.
    pub fn new(window_inner_size: PhysicalSize, acquisition: GpuAcquisition<G::Gpu>) -> (system: Result<
        Self,
        InitError,
    >)
        ensures
            match WgpuState::<G>::init_error(window_inner_size, acquisition) {
                Some(e) => system is Err && system->Err_0 == e,
                None => {
                    &&& system is Ok
                    &&& system->Ok_0.frame_state() == FrameState::Empty
                    &&& system->Ok_0.frame() is None
                    &&& !system->Ok_0.has_retried()
                    &&& system->Ok_0.wgpu_state()@ == WgpuState::<G>::initial(window_inner_size, acquisition)
                },
            },
    {
        match WgpuState::new(window_inner_size, acquisition) {
            Ok(state) => Ok(RenderingSystem { state, frt: FrtHolder::Empty, retried: false }),
            Err(e) => Err(e),
        }
    }

    /// The state of the graphics device.
    pub fn state(&self) -> (state: &WgpuState<G>)
        ensures
            *state == self.wgpu_state(),
    {
        &self.state
    }

    /// The state of the graphics device, to work with. The render target
    /// of the frame stays where it is.
    pub fn state_mut(&mut self) -> (state: &mut WgpuState<G>)
        ensures
            *state == old(self).wgpu_state(),
            final(self).wgpu_state() == *final(state),
            final(self).frame_state() == old(self).frame_state(),
            final(self).frame() == old(self).frame(),
            final(self).has_retried() == old(self).has_retried(),
    {
        &mut self.state
    }

    /// Who has the render target of the frame.
    pub fn current_frame_state(&self) -> (state: FrameState)
        ensures
            state == self.frame_state(),
    {
        self.frt.frame_state()
    }

    /// `post` is the system after it was asked to start the rendering of
    /// a frame with what the surface gave, and `started` what it answered.
    pub open spec fn render_started(
        self,
        acquired: Result<FrameRenderTarget<G>, SurfaceError>,
        started: Result<RenderPass, StartRenderError>,
        post: Self,
    ) -> bool {
        match self.frame_state().start() {
            Err(misuse) => started is Err && started->Err_0 == StartRenderError::Misuse(misuse)
                && post == self,
            Ok(next) => match acquired {
                Ok(frt) => {
                    &&& started is Ok
                    &&& started->Ok_0.load_op() == LoadOp::Clear
                    &&& started->Ok_0@ == Seq::<RenderCommandView>::empty()
                    &&& post.frame_state() == next
                    &&& post.frame() == Some(frt)
                    &&& !post.has_retried()
                    &&& post.wgpu_state() == self.wgpu_state()
                },
                Err(e) => if e.is_retryable() && !self.has_retried() {
                    &&& started is Err
                    &&& started->Err_0 == StartRenderError::Retry
                    &&& post.frame_state() == FrameState::Empty
                    &&& post.frame() is None
                    &&& post.has_retried()
                    &&& post.wgpu_state()@ == (WgpuStateView {
                        surface_stale: true,
                        ..self.wgpu_state()@
                    })
                } else {
                    &&& started is Err
                    &&& started->Err_0 == StartRenderError::Surface(e)
                    &&& post.frame_state() == FrameState::Empty
                    &&& post.frame() is None
                    &&& !post.has_retried()
                    &&& post.wgpu_state() == self.wgpu_state()
                },
            },
        }
    }

    /// `post` is the system after it was asked to complete the rendering
    /// of the frame, and `completed` what it answered.
    pub open spec fn render_completed(
        self,
        completed: Result<FrameRenderTarget<G>, RenderMisuse>,
        post: Self,
    ) -> bool {
        match self.frame_state().complete() {
            Ok(next) => {
                &&& completed is Ok
                &&& Some(completed->Ok_0) == self.frame()
                &&& post.frame_state() == next
                &&& post.frame() is None
                &&& post.wgpu_state() == self.wgpu_state()
                &&& post.has_retried() == self.has_retried()
            },
            Err(misuse) => completed is Err && completed->Err_0 == misuse && post == self,
        }
    }

    /// Starts rendering a new frame with what the surface gave when it was
    /// asked for its next image.
    ///
    /// It is a misuse unless no frame is being rendered; then nothing
    /// changes. With an image, the system owns the render target from now
    /// on, and the frame begins with the pass that is returned, which
    /// clears the target. Without one, a surface that is lost or outdated
    /// is to be configured anew and asked once more, so the first such
    /// failure says `Retry`; any other failure, and the second in a row, is
    /// handed on.
    pub fn start_render(&mut self, acquired: Result<FrameRenderTarget<G>, SurfaceError>) -> (started:
        Result<RenderPass, StartRenderError>)
        ensures
            old(self).render_started(acquired, started, *final(self)),
    {
        match self.frt.frame_state() {
            FrameState::Owned => {
                return Err(StartRenderError::Misuse(RenderMisuse::FrameInFlight));
            },
            FrameState::Lent => {
                return Err(StartRenderError::Misuse(RenderMisuse::FrameLent));
            },
            FrameState::Empty => {},
        }
        match acquired {
            Ok(frt) => {
                self.frt = FrtHolder::Owned(frt);
                self.retried = false;
                Ok(self.state.make_clear_render_pass())
            },
            Err(e) => {
                let retryable = match e {
                    SurfaceError::Lost => true,
                    SurfaceError::Outdated => true,
                    _ => false,
                };
                if retryable && !self.retried {
                    self.retried = true;
                    self.state.invalidate_surface();
                    Err(StartRenderError::Retry)
                } else {
                    self.retried = false;
                    Err(StartRenderError::Surface(e))
                }
            },
        }
    }

    /// Lends the render target of the frame to a system that records into
    /// the same frame. The rendering system has to have the target: to
    /// borrow it while it is lent out, or while no frame is being rendered,
    /// is a bug of the caller.
    pub fn take_frt(&mut self) -> (taken: FrameRenderTarget<G>)
        requires
            old(self).frame_state() == FrameState::Owned,
        ensures
            Some(taken) == old(self).frame(),
            Ok::<FrameState, RenderMisuse>(final(self).frame_state()) == old(self).frame_state().lend(),
            final(self).frame() is None,
            final(self).wgpu_state() == old(self).wgpu_state(),
            final(self).has_retried() == old(self).has_retried(),
    {
        match self.frt.frame_state() {
            FrameState::Owned => {},
            _ => unreached(),
        }
        let mut holder = FrtHolder::Given;
        core::mem::swap(&mut self.frt, &mut holder);
        match holder {
            FrtHolder::Owned(frt) => frt,
            _ => unreached(),
        }
    }

    /// Takes back the render target that was lent out. It is a misuse
    /// unless the target is lent out; then nothing changes.
    pub fn return_frt(&mut self, frt: FrameRenderTarget<G>) -> (returned: Result<(), RenderMisuse>)
        ensures
            match old(self).frame_state().take_back() {
                Ok(next) => {
                    &&& returned is Ok
                    &&& final(self).frame() == Some(frt)
                    &&& final(self).frame_state() == next
                    &&& final(self).wgpu_state() == old(self).wgpu_state()
                    &&& final(self).has_retried() == old(self).has_retried()
                },
                Err(misuse) => returned is Err && returned->Err_0 == misuse && *final(self) == *old(self),
            },
    {
        match self.frt.frame_state() {
            FrameState::Empty => Err(RenderMisuse::NoFrame),
            FrameState::Owned => Err(RenderMisuse::FrameInFlight),
            FrameState::Lent => {
                self.frt = FrtHolder::Owned(frt);
                Ok(())
            },
        }
    }

    /// Completes the rendering of the frame: hands out the render target,
    /// whose commands are to be finished and submitted, and is free for the
    /// next frame. It is a misuse unless the rendering system has the
    /// target; then nothing changes.
    pub fn complete_render(&mut self) -> (completed: Result<FrameRenderTarget<G>, RenderMisuse>)
        ensures
            old(self).render_completed(completed, *final(self)),
    {
        match self.frt.frame_state() {
            FrameState::Empty => Err(RenderMisuse::NoFrame),
            FrameState::Lent => Err(RenderMisuse::FrameLent),
            FrameState::Owned => {
                let mut holder = FrtHolder::Empty;
                core::mem::swap(&mut self.frt, &mut holder);
                match holder {
                    FrtHolder::Owned(frt) => Ok(frt),
                    _ => Err(RenderMisuse::NoFrame),
                }
            },
        }
    }

    /// Mutable borrows of both the state of the graphics device and the
    /// render target of the frame, to record into the frame. It is a
    /// misuse unless the rendering system has the target.
    pub fn state_and_frt(&mut self) -> (both: Result<
        (&mut WgpuState<G>, &mut FrameRenderTarget<G>),
        RenderMisuse,
    >)
        ensures
            match old(self).frame_state().lend() {
                Ok(_) => {
                    &&& both is Ok
                    &&& *both->Ok_0.0 == old(self).wgpu_state()
                    &&& Some(*both->Ok_0.1) == old(self).frame()
                    &&& final(self).wgpu_state() == *final(both->Ok_0.0)
                    &&& final(self).frame() == Some(*final(both->Ok_0.1))
                    &&& final(self).frame_state() == FrameState::Owned
                    &&& final(self).has_retried() == old(self).has_retried()
                },
                Err(misuse) => both is Err && both->Err_0 == misuse && *final(self) == *old(self),
            },
    {
        match &mut self.frt {
            FrtHolder::Owned(frt) => Ok((&mut self.state, frt)),
            FrtHolder::Given => Err(RenderMisuse::FrameLent),
            FrtHolder::Empty => Err(RenderMisuse::NoFrame),
        }
    }

    /// Takes note of a new inner size of the window. A size with a
    /// dimension of zero is ignored.
    pub fn resize_event(&mut self, new_inner_size: PhysicalSize)
        ensures
            !new_inner_size.has_area() ==> *final(self) == *old(self),
            new_inner_size.has_area() ==> final(self).wgpu_state()@ == old(self).wgpu_state()@.resized(
                new_inner_size,
            ),
            final(self).frame_state() == old(self).frame_state(),
            final(self).frame() == old(self).frame(),
            final(self).has_retried() == old(self).has_retried(),
    {
        let _ = self.state.resize(new_inner_size);
    }
}

impl<G: GpuBackend> EventReceiver<G> for RenderingSystem<G> {
    open spec fn receives(evt_type: EventType) -> bool {
        evt_type is WindowResizeEvent
    }

    open spec fn accepts(ctx: EngineContext<G>, evt: Event) -> bool {
        true
    }

    open spec fn received(pre: EngineContext<G>, evt: Event, post: EngineContext<G>) -> bool {
        let new_size = evt->WindowResizeEvent_0.new_size;
        &&& post == (EngineContext { rendering_system: post.rendering_system, ..pre })
        &&& pre.rendering_system is None || !new_size.has_area() ==> post == pre
        &&& pre.rendering_system is Some && new_size.has_area() ==> {
            &&& post.rendering_system is Some
            &&& post.rendering_system->0.wgpu_state()@ == pre.rendering_system->0.wgpu_state()@.resized(
                new_size,
            )
            &&& post.rendering_system->0.frame_state() == pre.rendering_system->0.frame_state()
            &&& post.rendering_system->0.frame() == pre.rendering_system->0.frame()
            &&& post.rendering_system->0.has_retried() == pre.rendering_system->0.has_retried()
        }
    }

    fn receives_event_type(evt_type: EventType) -> (receives: bool) {
        match evt_type {
            EventType::WindowResizeEvent => true,
            _ => false,
        }
    }

    fn receive_event(ctx: &mut EngineContext<G>, evt: Event) {
        match evt {
            Event::WindowResizeEvent(resize) => match &mut ctx.rendering_system {
                None => {},
                Some(rc) => {
                    rc.resize_event(resize.new_size);
                },
            },
            _ => {},
        }
    }
}

/// Starts rendering a new frame with what the surface gave when it was
/// asked for its next image. See `RenderingSystem::start_render()`.
pub fn start_render<G: GpuBackend>(
    ctx: &mut EngineContext<G>,
    acquired: Result<FrameRenderTarget<G>, SurfaceError>,
) -> (started: Result<RenderPass, StartRenderError>)
    requires
        old(ctx).rendering_system is Some,
    ensures
        final(ctx).rendering_system is Some,
        old(ctx).rendering_system->0.render_started(acquired, started, final(ctx).rendering_system->0),
        *final(ctx) == (EngineContext { rendering_system: final(ctx).rendering_system, ..*old(ctx) }),
{
    unwrap_mut(&mut ctx.rendering_system).start_render(acquired)
}

/// Completes the rendering of a frame and hands out its render target,
/// whose commands are to be finished and submitted. See
/// `RenderingSystem::complete_render()`.
pub fn complete_render<G: GpuBackend>(ctx: &mut EngineContext<G>) -> (completed: Result<
    FrameRenderTarget<G>,
    RenderMisuse,
>)
    requires
        old(ctx).rendering_system is Some,
    ensures
        final(ctx).rendering_system is Some,
        old(ctx).rendering_system->0.render_completed(completed, final(ctx).rendering_system->0),
        *final(ctx) == (EngineContext { rendering_system: final(ctx).rendering_system, ..*old(ctx) }),
{
    unwrap_mut(&mut ctx.rendering_system).complete_render()
}

} // verus!
