//! The overlay: the functions that draw its elements in the frame that is
//! being rendered. They are kept until the overlay is rendered and run once.

use vstd::prelude::*;
use crate::context::EngineContext;
use crate::rendering::GpuBackend;
use crate::utils::unwrap_mut;

verus! {

/// Keeps the functions that draw the overlay of the current frame. `F` is
/// the type of such a function.
pub struct ImguiSystem<F> {
    render_fns: Vec<F>,
}

impl<F> ImguiSystem<F> {
    /// The functions that are waiting to be run, oldest first.
    pub closed spec fn view(&self) -> Seq<F> {
        self.render_fns@
    }

    /// An overlay with no function waiting.
    pub fn new() -> (system: Self)
        ensures
            system@ == Seq::<F>::empty(),
    {
        ImguiSystem { render_fns: Vec::new() }
    }

    /// Adds a function that draws elements of the overlay. It is run when
    /// the overlay is rendered next, after those added before it, and is
    /// then forgotten: what is to show in every frame is added in every
    /// frame.
    pub fn add_render_fn(&mut self, func: F)
        ensures
            final(self)@ == old(self)@.push(func),
    {
        self.render_fns.push(func);
    }

    /// Hands out the functions that are waiting, oldest first, to be run
    /// in this order, and forgets them.
    pub fn render(&mut self) -> (render_fns: Vec<F>)
        ensures
            render_fns@ == old(self)@,
            final(self)@ == Seq::<F>::empty(),
    {
        let mut render_fns: Vec<F> = Vec::new();
        core::mem::swap(&mut self.render_fns, &mut render_fns);
        render_fns
    }
}

/// Adds a function that draws elements of the overlay to the queue of the
/// overlay.
///
/// The functions in the queue get run whenever the overlay is rendered.
/// The queue is then cleared (after all, this is an immediate mode GUI
/// system). If you want to display the same thing every frame, you must
/// call this function every frame.
pub fn add_render_fn<G: GpuBackend>(ctx: &mut EngineContext<G>, func: G::RenderFn)
    requires
        old(ctx).imgui_system is Some,
    ensures
        final(ctx).imgui_system is Some,
        final(ctx).imgui_system->0@ == old(ctx).imgui_system->0@.push(func),
        *final(ctx) == (EngineContext { imgui_system: final(ctx).imgui_system, ..*old(ctx) }),
{
    unwrap_mut(&mut ctx.imgui_system).add_render_fn(func);
}

/// Hands out the functions in the queue of the overlay, oldest first, to
/// be run in this order on the frame that is being rendered, and clears
/// the queue. See `add_render_fn()` for how to add these functions.
pub fn render<G: GpuBackend>(ctx: &mut EngineContext<G>) -> (render_fns: Vec<G::RenderFn>)
    requires
        old(ctx).imgui_system is Some,
    ensures
        render_fns@ == old(ctx).imgui_system->0@,
        final(ctx).imgui_system is Some,
        final(ctx).imgui_system->0@ == Seq::<G::RenderFn>::empty(),
        *final(ctx) == (EngineContext { imgui_system: final(ctx).imgui_system, ..*old(ctx) }),
{
    unwrap_mut(&mut ctx.imgui_system).render()
}

} // verus!
