//! The interface between the engine and the application that it runs.

use vstd::prelude::*;
use crate::context::EngineContext;
use crate::event::Event;
use crate::event::EventType;
use crate::rendering::GpuBackend;

verus! {

/// Lets an application be told of engine events.
///
/// Whenever an application is given the context, it leaves alone what the
/// engine keeps for itself: see `EngineContext::kept_by_callback`.
pub trait ApplicationEventReceiver<G: GpuBackend> {
    /// Whether the application wants to be told of events of this kind.
    fn receives_event_type(evt_type: EventType) -> bool;

    /// Will be called iff `receives_event_type()` returns true for the event's type
    fn receive_event(&mut self, ctx: &mut EngineContext<G>, evt: Event)
        ensures
            old(ctx).kept_by_callback(*final(ctx)),
    ;
}

/// Application Interface
///
/// The event loop has control of the main loop. Therefore, the engine has
/// to manage the general control flow, which is done by requesting an
/// Application "object" (i.e. a struct that impl's Application) and calling
/// it's methods.
///
/// All methods are given a `ctx` parameter. This is a handle to the engine,
/// that is needed for various useful procedures. You cannot store this
/// handle, so use the parameter.
///
/// CONTROL FLOW:
///
/// INIT() -> LOOP { UPDATE() -> RENDER() } -> CLOSE()
pub trait Application<G: GpuBackend>: ApplicationEventReceiver<G> + Sized {
    /// Creates the Application object.
    fn new(ctx: &mut EngineContext<G>) -> (app: Self)
        ensures
            old(ctx).kept_by_callback(*final(ctx)),
    ;

    /// Called once the engine wants to close. For example, you may save information here.
    ///
    /// Do not call it to close the application: see the `windowing` module
    /// for how to cause the application to close.
    fn close(&mut self, ctx: &mut EngineContext<G>)
        ensures
            old(ctx).kept_by_callback(*final(ctx)),
    ;

    /// Called once per frame, after handling events but before rendering.
    fn update(&mut self, ctx: &mut EngineContext<G>)
        ensures
            old(ctx).kept_by_callback(*final(ctx)),
    ;

    /// Called once per frame, usually after `Application::update()`.
    ///
    /// Note: Sometimes a redraw is requested from outside (for example, if
    /// the app window is resized), which could cause `render()` to be
    /// called without a preceding `update()` call.
    fn render(&mut self, ctx: &mut EngineContext<G>)
        ensures
            old(ctx).kept_by_callback(*final(ctx)),
    ;
}

/// Tells the application of the event iff it wants to be told of events of
/// this kind.
///
/// The application is asked, by a call of `receives_event_type`, whether
/// it receives events of the kind of `evt`. If it says so, it is told of
/// the event by one call of `receive_event` on the application and the
/// context as they are, and what that call makes of them is what they are
/// afterwards. If not, nothing changes.
pub fn inform_application<G: GpuBackend, T: Application<G>>(
    app: &mut T,
    ctx: &mut EngineContext<G>,
    evt: Event,
)
    ensures
        exists|receives: bool|
            {
                &&& #[trigger] call_ensures(T::receives_event_type, (evt.kind(),), receives)
                &&& receives ==> exists|told: &mut T, given: &mut EngineContext<G>|
                    {
                        &&& mut_ref_current(told) == *old(app)
                        &&& mut_ref_future(told) == *final(app)
                        &&& mut_ref_current(given) == *old(ctx)
                        &&& mut_ref_future(given) == *final(ctx)
                        &&& #[trigger] call_ensures(T::receive_event, (told, given, evt), ())
                    }
                &&& !receives ==> *final(app) == *old(app) && *final(ctx) == *old(ctx)
            },
        old(ctx).kept_by_callback(*final(ctx)),
{
    // The two calls are made through the functions as values: what is known
    // of such a call is what the application ensures of it.
    let receives_event_type = T::receives_event_type;
    let receive_event = T::receive_event;
    if receives_event_type(evt.event_type()) {
        receive_event(app, ctx, evt);
    }
}

} // verus!
