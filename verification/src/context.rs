//! The state of the engine: its systems and its queue of events.

use vstd::prelude::*;
use crate::chrono::ChronoSystem;
use crate::event::EventQueue;
use crate::imgui::ImguiSystem;
use crate::input::InputSystem;
use crate::rendering::wgpu_state::GpuAcquisition;
use crate::rendering::wgpu_state::InitError;
use crate::rendering::wgpu_state::WgpuState;
use crate::rendering::GpuBackend;
use crate::rendering::RenderingSystem;
use crate::rendering::frame::FrameState;
use crate::utils::unwrap_ref;
use crate::windowing::PhysicalSize;
use crate::windowing::WindowingSystem;

verus! {

/// "Global" engine state.
///
/// Should probably be used like a singleton.
///
/// Systems that aren't initialized by default have init fns to allow users
/// to init them. The chrono, input, windowing and rendering systems are
/// initialized before the application is created; the overlay is
/// initialized by the application that wants it.
///
/// To use a system that is not initialized is a bug of the caller.
pub struct EngineContext<G: GpuBackend> {
    pub chrono_system: Option<ChronoSystem>,
    pub windowing_system: Option<WindowingSystem>,
    pub rendering_system: Option<RenderingSystem<G>>,
    pub imgui_system: Option<ImguiSystem<G::RenderFn>>,
    pub input_system: Option<InputSystem>,
    pub event_queue: EventQueue,
}

impl<G: GpuBackend> EngineContext<G> {
    /// Returns a new, "empty" `EngineContext` with all systems uninitialized.
    pub fn uninit() -> (ctx: Self)
        ensures
            ctx.chrono_system is None,
            ctx.windowing_system is None,
            ctx.rendering_system is None,
            ctx.imgui_system is None,
            ctx.input_system is None,
            ctx.event_queue@ == Seq::<crate::event::Event>::empty(),
    {
        EngineContext {
            chrono_system: None,
            input_system: None,
            windowing_system: None,
            rendering_system: None,
            imgui_system: None,
            event_queue: EventQueue::new(),
        }
    }

    /// Initializes the chrono system.
    pub fn chrono_init(&mut self)
        ensures
            final(self).chrono_system is Some,
            final(self).chrono_system->0.frames() == 0,
            final(self).chrono_system->0.frame_start() is None,
            final(self).chrono_system->0.measured() is None,
            *final(self) == (EngineContext { chrono_system: final(self).chrono_system, ..*old(self) }),
    {
        self.chrono_system = Some(ChronoSystem::new());
    }

    /// Initializes the input system.
    pub fn input_init(&mut self)
        ensures
            final(self).input_system is Some,
            final(self).input_system->0@.frame_count == 0,
            final(self).input_system->0@.buttons == Map::<
                crate::input::button::ButtonId,
                crate::input::button::ButtonState,
            >::empty(),
            *final(self) == (EngineContext { input_system: final(self).input_system, ..*old(self) }),
    {
        self.input_system = Some(InputSystem::new());
    }

    /// Initializes the windowing system for a window of the given inner
    /// size.
    pub fn windowing_init(&mut self, inner_size: PhysicalSize)
        ensures
            final(self).windowing_system is Some,
            final(self).windowing_system->0.size() == inner_size,
            !final(self).windowing_system->0.quits_by_force(),
            !final(self).windowing_system->0.wants_redraw(),
            final(self).windowing_system->0.outbox() == Seq::<crate::windowing::Request>::empty(),
            *final(self) == (EngineContext {
                windowing_system: final(self).windowing_system,
                ..*old(self)
            }),
    {
        self.windowing_system = Some(WindowingSystem::new(inner_size));
    }

    /// Initializes the rendering system for the window of the windowing
    /// system, after the graphics device was asked for. Where that failed,
    /// or the window has no area, the context stays as it is.
    pub fn rendering_init(&mut self, acquisition: GpuAcquisition<G::Gpu>) -> (initialized: Result<
        (),
        InitError,
    >)
        requires
            old(self).windowing_system is Some,
        ensures
            match WgpuState::<G>::init_error(old(self).windowing_system->0.size(), acquisition) {
                Some(e) => initialized is Err && initialized->Err_0 == e && *final(self) == *old(self),
                None => {
                    &&& initialized is Ok
                    &&& final(self).rendering_system is Some
                    &&& final(self).rendering_system->0.frame_state() == FrameState::Empty
                    &&& final(self).rendering_system->0.wgpu_state()@ == WgpuState::<G>::initial(
                        old(self).windowing_system->0.size(),
                        acquisition,
                    )
                    &&& *final(self) == (EngineContext {
                        rendering_system: final(self).rendering_system,
                        ..*old(self)
                    })
                },
            },
    {
        let inner_size = unwrap_ref(&self.windowing_system).get_inner_size();
        match RenderingSystem::new(inner_size, acquisition) {
            Ok(system) => {
                self.rendering_system = Some(system);
                Ok(())
            },
            Err(e) => Err(e),
        }
    }

    /// Initialize the overlay.
    ///
    /// Needs to be called iff the user wishes to use the overlay. The
    /// windowing and rendering systems have to be initialized.
    pub fn imgui_init(&mut self)
        requires
            old(self).windowing_system is Some,
            old(self).rendering_system is Some,
        ensures
            final(self).imgui_system is Some,
            final(self).imgui_system->0@ == Seq::<G::RenderFn>::empty(),
            *final(self) == (EngineContext { imgui_system: final(self).imgui_system, ..*old(self) }),
    {
        self.imgui_system = Some(ImguiSystem::new());
    }

    /// What `post` has kept of `self` when an application was given the
    /// context in between: the queue of events, the input and chrono
    /// systems, the size of the window and the configuration of the
    /// surface are not for an application to change, and a system that is
    /// initialized stays so.
    pub open spec fn kept_by_callback(self, post: Self) -> bool {
        &&& post.event_queue@ == self.event_queue@
        &&& post.input_system == self.input_system
        &&& post.chrono_system == self.chrono_system
        &&& self.windowing_system is Some ==> post.windowing_system is Some
            && post.windowing_system->0.size() == self.windowing_system->0.size()
        &&& self.rendering_system is Some <==> post.rendering_system is Some
        &&& self.rendering_system is Some ==> post.rendering_system->0.wgpu_state()@.surface_cfg
            == self.rendering_system->0.wgpu_state()@.surface_cfg
    }
}

} // verus!
