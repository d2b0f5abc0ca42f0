//! Resource- and frame-lifecycle core of a small real-time rendering engine.
//!
//! # Engine Architecture
//!
//! The engine has fundamentally two different types of resources at the
//! macro level, *Systems*, and *Components*.
//!
//! Systems are stored inside the `EngineContext` object, which contains all
//! systems, whether initialized or uninitialized. An example of a system is
//! `RenderingSystem`. To do something that requires a system to be
//! initialized when it isn't is a bug of the caller.
//!
//! Components are managed (and owned) by the user application, with the
//! expectation that users will pick and choose them according to their
//! needs. An example of a component is `Renderer2d`.
//!
//! The engine decides; it does not talk to the window or to the graphics
//! device itself. Whoever owns them hands the engine their events and
//! their answers, and carries out what the engine asks for.

pub mod application;
pub mod arena;
pub mod assets;
pub mod chrono;
pub mod context;
pub mod event;
pub mod imgui;
pub mod input;
pub mod rendering;
pub mod utils;
pub mod windowing;

use vstd::prelude::*;
use application::inform_application;
use application::Application;
use context::EngineContext;
use event::inform_receiver;
use event::resized_by;
use event::starts_in;
use event::Event;
use event::WindowResizeEvent;
use input::InputSystem;
use rendering::GpuBackend;
use rendering::RenderingSystem;
use utils::unwrap_mut;
use utils::unwrap_ref;
use windowing::ControlFlow;
use windowing::LoopEvent;
use windowing::PhysicalSize;
use windowing::Request;
use windowing::WindowEvent;

verus! {

/// What the delivery of `events` makes of the context, as far as it is not
/// for an application to change: the input system begins a frame for every
/// `Start` among them, and the surface takes the size of the last resize
/// among them that has no dimension of zero. The chrono system and the
/// size that the windowing system knows stay as they are, and no system
/// comes or goes.
pub open spec fn drained<G: GpuBackend>(
    pre: EngineContext<G>,
    events: Seq<Event>,
    post: EngineContext<G>,
) -> bool {
    &&& post.chrono_system == pre.chrono_system
    &&& pre.input_system is Some <==> post.input_system is Some
    &&& pre.input_system is Some ==> post.input_system->0@ == (input::InputState {
        frame_count: (pre.input_system->0@.frame_count + starts_in(events)) as u64,
        ..pre.input_system->0@
    })
    &&& pre.windowing_system is Some ==> post.windowing_system is Some
        && post.windowing_system->0.size() == pre.windowing_system->0.size()
    &&& pre.rendering_system is Some <==> post.rendering_system is Some
    &&& pre.rendering_system is Some ==> post.rendering_system->0.wgpu_state()@.surface_cfg
        == (rendering::wgpu_state::SurfaceConfiguration {
        width: resized_by(
            events,
            pre.rendering_system->0.wgpu_state()@.window_inner_size(),
        ).width,
        height: resized_by(
            events,
            pre.rendering_system->0.wgpu_state()@.window_inner_size(),
        ).height,
        ..pre.rendering_system->0.wgpu_state()@.surface_cfg
    })
}

/// The input system can begin a frame for every `Start` among `events`.
pub open spec fn can_drain<G: GpuBackend>(ctx: EngineContext<G>, events: Seq<Event>) -> bool {
    starts_in(events) > 0 ==> ctx.input_system is Some && ctx.input_system->0@.frame_count
        + starts_in(events) <= u64::MAX
}

proof fn lemma_folds_push(events: Seq<Event>, evt: Event, size: PhysicalSize)
    ensures
        starts_in(events.push(evt)) == starts_in(events) + if evt is Start {
            1nat
        } else {
            0nat
        },
        resized_by(events.push(evt), size) == (match evt {
            Event::WindowResizeEvent(resize) if resize.new_size.has_area() => resize.new_size,
            _ => resized_by(events, size),
        }),
{
    assert(events.push(evt).drop_last() =~= events);
}

proof fn lemma_starts_monotone(events: Seq<Event>, count: int)
    requires
        0 <= count <= events.len(),
    ensures
        starts_in(events.subrange(0, count)) <= starts_in(events),
    decreases events.len() - count,
{
    if count < events.len() {
        lemma_starts_monotone(events, count + 1);
        lemma_folds_push(
            events.subrange(0, count),
            events[count],
            PhysicalSize { width: 0, height: 0 },
        );
        assert(events.subrange(0, count).push(events[count]) =~= events.subrange(0, count + 1));
    } else {
        assert(events.subrange(0, count) =~= events);
    }
}

/// What became of one event of the queue: the application and the context
/// at each step of its delivery.
pub ghost struct Delivery<G: GpuBackend, T> {
    /// The application before the delivery.
    pub app_before: T,
    /// The context before the delivery: the event is the first of its
    /// queue.
    pub ctx_before: EngineContext<G>,
    /// The context when the event was taken from the queue.
    pub ctx_taken: EngineContext<G>,
    /// The context when the rendering system had been told of the event, or
    /// passed over.
    pub ctx_rendering: EngineContext<G>,
    /// The context when the input system had been told of the event, or
    /// passed over: what the application is given.
    pub ctx_offered: EngineContext<G>,
    /// The application when it had been told of the event, or passed over.
    pub app_after: T,
    /// The context when the application had been told of the event, or
    /// passed over.
    pub ctx_after: EngineContext<G>,
}

impl<G: GpuBackend, T: Application<G>> Delivery<G, T> {
    /// The delivery is that of `evt`, as far as the systems go: the event
    /// was the first of the queue and was taken from it, and the rendering
    /// system and then the input system were told of it if they receive
    /// events of its kind, and passed over if not. The application, which
    /// comes last, has left alone what is not for it to change.
    pub open spec fn of_event(self, evt: Event) -> bool {
        &&& self.ctx_before.event_queue@.len() > 0
        &&& self.ctx_before.event_queue@[0] == evt
        &&& self.ctx_taken == (EngineContext {
            event_queue: self.ctx_taken.event_queue,
            ..self.ctx_before
        })
        &&& self.ctx_taken.event_queue@ == self.ctx_before.event_queue@.drop_first()
        &&& if <RenderingSystem<G> as event::EventReceiver<G>>::receives(evt.kind()) {
            <RenderingSystem<G> as event::EventReceiver<G>>::received(
                self.ctx_taken,
                evt,
                self.ctx_rendering,
            )
        } else {
            self.ctx_rendering == self.ctx_taken
        }
        &&& if <InputSystem as event::EventReceiver<G>>::receives(evt.kind()) {
            <InputSystem as event::EventReceiver<G>>::received(
                self.ctx_rendering,
                evt,
                self.ctx_offered,
            )
        } else {
            self.ctx_offered == self.ctx_rendering
        }
        &&& self.ctx_offered.kept_by_callback(self.ctx_after)
    }

    /// `deliveries` are as many as the queue of `ctx` holds events, one
    /// begins where the one before it ends, the first with `app` and
    /// `ctx`, and the last ends with `post_app` and `post_ctx`.
    pub open spec fn of_queue(
        deliveries: Seq<Self>,
        app: T,
        ctx: EngineContext<G>,
        post_app: T,
        post_ctx: EngineContext<G>,
    ) -> bool {
        &&& deliveries.len() == ctx.event_queue@.len()
        &&& deliveries.len() > 0 ==> deliveries[0].app_before == app && deliveries[0].ctx_before
            == ctx
        &&& forall|i: int, j: int|
            0 <= i && j == i + 1 && j < deliveries.len() ==> (#[trigger] deliveries[j]).app_before
                == (#[trigger] deliveries[i]).app_after && deliveries[j].ctx_before
                == deliveries[i].ctx_after
        &&& post_app == if deliveries.len() == 0 {
            app
        } else {
            deliveries.last().app_after
        }
        &&& post_ctx == if deliveries.len() == 0 {
            ctx
        } else {
            deliveries.last().ctx_after
        }
    }

    /// The deliveries are those of the events of the queue of `ctx`, event
    /// by event.
    pub open spec fn of_events(deliveries: Seq<Self>, ctx: EngineContext<G>) -> bool {
        forall|i: int|
            0 <= i < deliveries.len() ==> (#[trigger] deliveries[i]).of_event(ctx.event_queue@[i])
    }

    proof fn lemma_queue_before(deliveries: Seq<Self>, ctx: EngineContext<G>, i: int)
        requires
            deliveries.len() == ctx.event_queue@.len(),
            deliveries.len() > 0 ==> deliveries[0].ctx_before == ctx,
            forall|i: int, j: int|
                0 <= i && j == i + 1 && j < deliveries.len() ==> (#[trigger] deliveries[j]).ctx_before
                    == (#[trigger] deliveries[i]).ctx_after,
            Self::of_events(deliveries, ctx),
            0 <= i < deliveries.len(),
        ensures
            deliveries[i].ctx_before.event_queue@ == ctx.event_queue@.subrange(
                i,
                deliveries.len() as int,
            ),
            deliveries[i].ctx_offered.event_queue@ == ctx.event_queue@.subrange(
                i + 1,
                deliveries.len() as int,
            ),
            deliveries[i].ctx_after.event_queue@ == ctx.event_queue@.subrange(
                i + 1,
                deliveries.len() as int,
            ),
        decreases i,
    {
        let events = ctx.event_queue@;
        let n = deliveries.len() as int;
        if i == 0 {
            assert(events.subrange(0, n) =~= events);
        } else {
            Self::lemma_queue_before(deliveries, ctx, i - 1);
            assert(deliveries[i].ctx_before == deliveries[i - 1].ctx_after);
        }
        assert(deliveries[i].of_event(events[i]));
        assert(events.subrange(i, n).drop_first() =~= events.subrange(i + 1, n));
    }

    /// A drain takes exactly the events that the queue held when it began,
    /// each once and in their order, and leaves the queue empty: every
    /// event is the first of the queue when its turn comes, the
    /// application is told of it with the events behind it still in the
    /// queue and no other, and after the last delivery no event is left.
    pub proof fn lemma_drain_leaves_queue_empty(
        deliveries: Seq<Self>,
        app: T,
        ctx: EngineContext<G>,
        post_app: T,
        post_ctx: EngineContext<G>,
    )
        requires
            Self::of_queue(deliveries, app, ctx, post_app, post_ctx),
            Self::of_events(deliveries, ctx),
        ensures
            post_ctx.event_queue@ == Seq::<Event>::empty(),
            forall|i: int|
                0 <= i < deliveries.len() ==> {
                    &&& (#[trigger] deliveries[i]).ctx_before.event_queue@
                        == ctx.event_queue@.subrange(i, deliveries.len() as int)
                    &&& deliveries[i].ctx_offered.event_queue@ == ctx.event_queue@.subrange(
                        i + 1,
                        deliveries.len() as int,
                    )
                },
    {
        let n = deliveries.len() as int;
        assert forall|i: int| 0 <= i < n implies {
            &&& (#[trigger] deliveries[i]).ctx_before.event_queue@ == ctx.event_queue@.subrange(i, n)
            &&& deliveries[i].ctx_offered.event_queue@ == ctx.event_queue@.subrange(i + 1, n)
        } by {
            Self::lemma_queue_before(deliveries, ctx, i);
        }
        if n > 0 {
            Self::lemma_queue_before(deliveries, ctx, n - 1);
            assert(ctx.event_queue@.subrange(n, n) =~= Seq::<Event>::empty());
        } else {
            assert(ctx.event_queue@ =~= Seq::<Event>::empty());
        }
    }
}

/// Takes the events that are in the queue, oldest first, and tells the
/// rendering system, the input system and the application of each, in this
/// order. Returns the number of events that it took: as many as were in the
/// queue, which is empty afterwards.
///
/// Of each event the application is asked whether it receives events of
/// its kind, and if so told of it, when the two systems have been told of
/// it. What one delivery leaves of the application and of the context is
/// what the next begins with.
pub fn process_engine_events<G: GpuBackend, T: Application<G>>(
    ctx: &mut EngineContext<G>,
    app: &mut T,
) -> (delivered: usize)
    requires
        can_drain(*old(ctx), old(ctx).event_queue@),
    ensures
        delivered == old(ctx).event_queue@.len(),
        final(ctx).event_queue@ == Seq::<Event>::empty(),
        drained(*old(ctx), old(ctx).event_queue@, *final(ctx)),
        // One delivery after the other makes the application and the
        // context what they are afterwards. In each the application is
        // informed by one call of `inform_application`, with the context as
        // the systems left it, and what that call makes of the application
        // and of the context is what they are after the delivery.
        exists|deliveries: Seq<Delivery<G, T>>|
            {
                &&& #[trigger] Delivery::of_queue(
                    deliveries,
                    *old(app),
                    *old(ctx),
                    *final(app),
                    *final(ctx),
                )
                &&& forall|i: int|
                    0 <= i < deliveries.len() ==> (#[trigger] deliveries[i]).of_event(
                        old(ctx).event_queue@[i],
                    ) && exists|told: &mut T, given: &mut EngineContext<G>|
                        {
                            &&& #[trigger] call_ensures(
                                inform_application::<G, T>,
                                (told, given, old(ctx).event_queue@[i]),
                                (),
                            )
                            &&& mut_ref_current(told) == deliveries[i].app_before
                            &&& mut_ref_future(told) == deliveries[i].app_after
                            &&& mut_ref_current(given) == deliveries[i].ctx_offered
                            &&& mut_ref_future(given) == deliveries[i].ctx_after
                        }
            },
{
    // The application is informed through the function as a value: what
    // is known of such a call is what the function ensures.
    let inform = inform_application::<G, T>;
    let pending = ctx.event_queue.len();
    let ghost events = ctx.event_queue@;
    let ghost mut deliveries: Seq<Delivery<G, T>> = Seq::empty();
    let mut delivered: usize = 0;
    assert(events.subrange(0, 0) =~= Seq::<Event>::empty());
    while delivered < pending
        invariant
            events == old(ctx).event_queue@,
            pending == events.len(),
            delivered <= pending,
            ctx.event_queue@ == events.subrange(delivered as int, pending as int),
            can_drain(*old(ctx), events),
            drained(*old(ctx), events.subrange(0, delivered as int), *ctx),
            deliveries.len() == delivered,
            delivered > 0 ==> deliveries[0].app_before == *old(app) && deliveries[0].ctx_before
                == *old(ctx),
            forall|i: int, j: int|
                0 <= i && j == i + 1 && j < deliveries.len() ==> (#[trigger] deliveries[j]).app_before
                    == (#[trigger] deliveries[i]).app_after && deliveries[j].ctx_before
                    == deliveries[i].ctx_after,
            *app == if delivered == 0 {
                *old(app)
            } else {
                deliveries.last().app_after
            },
            *ctx == if delivered == 0 {
                *old(ctx)
            } else {
                deliveries.last().ctx_after
            },
            forall|i: int|
                0 <= i < delivered ==> (#[trigger] deliveries[i]).of_event(events[i]) && exists|
                    told: &mut T,
                    given: &mut EngineContext<G>,
                |
                    {
                        &&& #[trigger] call_ensures(
                            inform_application::<G, T>,
                            (told, given, events[i]),
                            (),
                        )
                        &&& mut_ref_current(told) == deliveries[i].app_before
                        &&& mut_ref_future(told) == deliveries[i].app_after
                        &&& mut_ref_current(given) == deliveries[i].ctx_offered
                        &&& mut_ref_future(given) == deliveries[i].ctx_after
                    },
        decreases pending - delivered,
    {
        let ghost done = events.subrange(0, delivered as int);
        let ghost app_before = *app;
        let ghost ctx_before = *ctx;
        // Fewer events were taken than were in the queue: there is one.
        if let Some(evt) = ctx.event_queue.retrieve_event() {
            let ghost ctx_taken = *ctx;
            proof {
                assert(evt == events[delivered as int]);
                assert(done.push(evt) =~= events.subrange(0, delivered + 1));
                assert(ctx.event_queue@ =~= events.subrange(delivered + 1, pending as int));
                lemma_starts_monotone(events, delivered + 1);
                if old(ctx).rendering_system is Some {
                    lemma_folds_push(
                        done,
                        evt,
                        old(ctx).rendering_system->0.wgpu_state()@.window_inner_size(),
                    );
                } else {
                    lemma_folds_push(done, evt, PhysicalSize { width: 0, height: 0 });
                }
            }
            // Only the rendering system and the input system are listening to events
            inform_receiver::<G, RenderingSystem<G>>(ctx, evt);
            let ghost ctx_rendering = *ctx;
            inform_receiver::<G, InputSystem>(ctx, evt);
            let ghost ctx_offered = *ctx;
            assert(drained(*old(ctx), events.subrange(0, delivered + 1), *ctx));
            // After all systems are informed of an event, inform the App.
            inform(app, ctx, evt);
            proof {
                let app_after = *app;
                let ctx_after = *ctx;
                let delivery = Delivery::<G, T> {
                    app_before,
                    ctx_before,
                    ctx_taken,
                    ctx_rendering,
                    ctx_offered,
                    app_after,
                    ctx_after,
                };
                assert(delivery.of_event(evt));
                deliveries = deliveries.push(delivery);
            }
        }
        delivered += 1;
    }
    assert(Delivery::of_queue(deliveries, *old(app), *old(ctx), *app, *ctx));
    assert(events.subrange(0, delivered as int) =~= events);
    assert(Delivery::of_events(deliveries, *old(ctx)));
    delivered
}

/// What the event loop is to do after the event: it goes on, unless the
/// application forced it to quit, a quit request arrived or the window is
/// to be closed. The end of the loop itself asks for nothing more.
pub open spec fn control_flow_after<G: GpuBackend>(ctx: EngineContext<G>, event: LoopEvent) -> ControlFlow {
    if event is LoopDestroyed {
        ControlFlow::Poll
    } else if ctx.windowing_system->0.quits_by_force() {
        ControlFlow::Exit
    } else {
        match event {
            LoopEvent::UserEvent(Request::Quit) => ControlFlow::Exit,
            LoopEvent::WindowEvent(WindowEvent::CloseRequested) => ControlFlow::Exit,
            _ => ControlFlow::Poll,
        }
    }
}

/// The event is handled: the loop does not end with it, and the
/// application has not forced the loop to quit.
pub open spec fn loop_event_runs<G: GpuBackend>(ctx: EngineContext<G>, event: LoopEvent) -> bool {
    !(event is LoopDestroyed) && !ctx.windowing_system->0.quits_by_force()
}

/// What handling the event needs of the context. The windowing system is
/// initialized unless the loop ends; the systems that are told of the event
/// are initialized and their frame counters can go on; and at the start of
/// a frame no event is left in the queue.
pub open spec fn loop_event_ready<G: GpuBackend>(ctx: EngineContext<G>, event: LoopEvent) -> bool {
    event is LoopDestroyed || (ctx.windowing_system is Some && (
    ctx.windowing_system->0.quits_by_force() || match event {
        LoopEvent::WindowEvent(window_event) => window_event.is_input() ==> ctx.input_system is Some,
        LoopEvent::DeviceEvent => ctx.input_system is Some,
        LoopEvent::NewEvents => {
            &&& ctx.event_queue@.len() == 0
            &&& ctx.chrono_system is Some
            &&& ctx.chrono_system->0.frames() < u64::MAX
            &&& ctx.input_system is Some
            &&& ctx.input_system->0@.frame_count < u64::MAX
        },
        LoopEvent::MainEventsCleared => can_drain(ctx, ctx.event_queue@),
        LoopEvent::RedrawRequested => can_drain(ctx, ctx.event_queue@),
        _ => true,
    }))
}

/// Whether the context is ready for the event: see `loop_event_ready`. It
/// is for the owner of the event loop to ask before it hands the event to
/// the engine.
pub fn is_loop_event_ready<G: GpuBackend>(ctx: &EngineContext<G>, event: &LoopEvent) -> (ready: bool)
    ensures
        ready == loop_event_ready(*ctx, *event),
{
    if let LoopEvent::LoopDestroyed = event {
        return true;
    }
    let forced = match &ctx.windowing_system {
        Some(windowing) => windowing.is_force_quit(),
        None => {
            return false;
        },
    };
    if forced {
        return true;
    }
    match event {
        LoopEvent::WindowEvent(window_event) => !window_event.is_input_event()
            || ctx.input_system.is_some(),
        LoopEvent::DeviceEvent => ctx.input_system.is_some(),
        LoopEvent::NewEvents => {
            let chrono_ready = match &ctx.chrono_system {
                Some(chrono) => chrono.frame_number() < u64::MAX,
                None => false,
            };
            let input_ready = match &ctx.input_system {
                Some(input) => input.frame_count() < u64::MAX,
                None => false,
            };
            ctx.event_queue.is_empty() && chrono_ready && input_ready
        },
        LoopEvent::MainEventsCleared => is_drain_ready(ctx),
        LoopEvent::RedrawRequested => is_drain_ready(ctx),
        _ => true,
    }
}

/// Whether the queue of the context can be drained: see `can_drain`.
pub fn is_drain_ready<G: GpuBackend>(ctx: &EngineContext<G>) -> (ready: bool)
    ensures
        ready == can_drain(*ctx, ctx.event_queue@),
{
    let starts = ctx.event_queue.starts();
    if starts == 0 {
        return true;
    }
    match &ctx.input_system {
        Some(input) => {
            let frame_count = input.frame_count();
            let starts: u64 = starts as u64;
            starts <= u64::MAX - frame_count
        },
        None => false,
    }
}

/// What a new inner size of the window makes of the context: the
/// windowing system knows the size at once, and the resize is put into the
/// queue of events for the other systems.
pub open spec fn window_resized<G: GpuBackend>(
    pre: EngineContext<G>,
    new_size: PhysicalSize,
    post: EngineContext<G>,
) -> bool {
    &&& post == (EngineContext {
        event_queue: post.event_queue,
        windowing_system: post.windowing_system,
        ..pre
    })
    &&& post.event_queue@ == pre.event_queue@.push(
        Event::WindowResizeEvent(WindowResizeEvent { new_size }),
    )
    &&& post.windowing_system is Some
    &&& post.windowing_system->0.size() == new_size
    &&& post.windowing_system->0.quits_by_force() == pre.windowing_system->0.quits_by_force()
    &&& post.windowing_system->0.wants_redraw() == pre.windowing_system->0.wants_redraw()
    &&& post.windowing_system->0.outbox() == pre.windowing_system->0.outbox()
}

/// What handling the event makes of the context.
pub open spec fn loop_event_handled<G: GpuBackend>(
    pre: EngineContext<G>,
    event: LoopEvent,
    post: EngineContext<G>,
) -> bool {
    if event is LoopDestroyed {
        pre.kept_by_callback(post)
    } else if pre.windowing_system->0.quits_by_force() {
        post == pre
    } else {
        match event {
            LoopEvent::WindowEvent(WindowEvent::Resized(new_size)) => window_resized(
                pre,
                new_size,
                post,
            ),
            LoopEvent::WindowEvent(
                WindowEvent::ScaleFactorChanged { new_inner_size },
            ) => window_resized(pre, new_inner_size, post),
            LoopEvent::WindowEvent(window_event) => if window_event.is_input() {
                &&& post == (EngineContext { input_system: post.input_system, ..pre })
                &&& post.input_system is Some
                &&& post.input_system->0@ == pre.input_system->0@.after_window_event(window_event)
            } else {
                post == pre
            },
            LoopEvent::NewEvents => {
                &&& post.event_queue@ == Seq::<Event>::empty()
                &&& post.chrono_system is Some
                &&& pre.chrono_system->0.frame_started(post.chrono_system->0)
                &&& drained(
                    EngineContext { chrono_system: post.chrono_system, ..pre },
                    seq![Event::Start],
                    post,
                )
            },
            LoopEvent::MainEventsCleared => {
                &&& post.event_queue@ == Seq::<Event>::empty()
                &&& drained(pre, pre.event_queue@, post)
                &&& post.windowing_system->0.wants_redraw()
            },
            LoopEvent::RedrawRequested => {
                &&& post.event_queue@ == Seq::<Event>::empty()
                &&& drained(pre, pre.event_queue@, post)
            },
            _ => post == pre,
        }
    }
}

/// The cycle of a frame keeps the queue of events empty: if no event is
/// left in the queue when the frame starts, then none is left after the
/// start, none after the update and none after the rendering, so that the
/// next frame can start. The events that arrive in between, resizes among
/// them, wait in the queue for the next phase and leave it there.
pub proof fn lemma_frame_cycle_leaves_queue_empty<G: GpuBackend>(
    at_start: EngineContext<G>,
    started: EngineContext<G>,
    before_update: EngineContext<G>,
    updated: EngineContext<G>,
    before_render: EngineContext<G>,
    rendered: EngineContext<G>,
)
    requires
        at_start.event_queue@.len() == 0,
        loop_event_handled(at_start, LoopEvent::NewEvents, started),
        loop_event_handled(before_update, LoopEvent::MainEventsCleared, updated),
        loop_event_handled(before_render, LoopEvent::RedrawRequested, rendered),
        !before_update.windowing_system->0.quits_by_force(),
        !before_render.windowing_system->0.quits_by_force(),
    ensures
        started.event_queue@.len() == 0,
        updated.event_queue@.len() == 0,
        rendered.event_queue@.len() == 0,
        drained(before_update, before_update.event_queue@, updated),
        drained(before_render, before_render.event_queue@, rendered),
{
}

proof fn lemma_drained_then<G: GpuBackend>(
    a: EngineContext<G>,
    events: Seq<Event>,
    b: EngineContext<G>,
    c: EngineContext<G>,
    last: Event,
    d: EngineContext<G>,
)
    requires
        drained(a, events, b),
        b.kept_by_callback(c),
        !(last is Start),
        !(last is WindowResizeEvent),
        drained(EngineContext { event_queue: d.event_queue, ..c }, seq![last], d),
    ensures
        drained(a, events, d),
{
    let size = if c.rendering_system is Some {
        c.rendering_system->0.wgpu_state()@.window_inner_size()
    } else {
        PhysicalSize { width: 0, height: 0 }
    };
    lemma_folds_push(Seq::<Event>::empty(), last, size);
}

/// One step of the engine: handles an event of the event loop and says
/// what the loop is to do next.
///
/// The cycle of a frame is: the start (`NewEvents`), the main events, the
/// update (`MainEventsCleared`), the rendering (`RedrawRequested`).
///
/// - At the end of the loop the application is closed.
/// - Once the application has forced the loop to quit, every event is
///   ignored.
/// - A quit request that arrives and a window that is to be closed end the
///   loop.
/// - A new size of the window is taken note of by the windowing system and
///   put into the queue of engine events: the other systems see it when
///   the queue is drained next, in the order of the queue. Other events of
///   the window go to the input system.
/// - At the start of a frame the chrono system begins the frame, and
///   `Start` is put into the queue and the queue is drained.
/// - For the update `PreUpdateEvent` is put into the queue and the queue
///   is drained, the application updates, `PostUpdateEvent` is put into
///   the queue and the queue is drained, and a redraw is asked for.
/// - For the rendering `PreRenderEvent` is put into the queue and the
///   queue is drained, the application renders, `PostRenderEvent` is put
///   into the queue and the queue is drained.
///
/// After each of the three phases of a frame the queue is empty. Whatever
/// the application is called for is called once, in this order, and each
/// call is given the application and the context as the step before it
/// left them.
pub fn handle_loop_event<G: GpuBackend, T: Application<G>>(
    ctx: &mut EngineContext<G>,
    app: &mut T,
    event: &LoopEvent,
) -> (flow: ControlFlow)
    requires
        loop_event_ready(*old(ctx), *event),
    ensures
        flow == control_flow_after(*old(ctx), *event),
        loop_event_handled(*old(ctx), *event, *final(ctx)),
        // At the end of the loop the application is closed, by one call of
        // `close`.
        *event is LoopDestroyed ==> exists|told: &mut T, given: &mut EngineContext<G>|
            {
                &&& #[trigger] call_ensures(T::close, (told, given), ())
                &&& mut_ref_current(told) == *old(app)
                &&& mut_ref_future(told) == *final(app)
                &&& mut_ref_current(given) == *old(ctx)
                &&& mut_ref_future(given) == *final(ctx)
            },
        // Outside the three phases of a frame the application is left alone.
        !(*event is LoopDestroyed) && !(loop_event_runs(*old(ctx), *event) && (*event is NewEvents
            || *event is MainEventsCleared || *event is RedrawRequested)) ==> *final(app)
            == *old(app),
        // At the start of a frame the chrono system begins the frame,
        // `Start` is put into the queue, and the queue is drained, by one
        // call of `process_engine_events`, which makes the application and
        // the context what they are afterwards.
        loop_event_runs(*old(ctx), *event) && *event is NewEvents ==> exists|
            first: &mut EngineContext<G>,
            hearer: &mut T,
            taken: usize,
        |
            {
                &&& mut_ref_current(first) == (EngineContext {
                    chrono_system: mut_ref_current(first).chrono_system,
                    event_queue: mut_ref_current(first).event_queue,
                    ..*old(ctx)
                })
                &&& mut_ref_current(first).chrono_system is Some
                &&& old(ctx).chrono_system->0.frame_started(mut_ref_current(first).chrono_system->0)
                &&& mut_ref_current(first).event_queue@ == seq![Event::Start]
                &&& mut_ref_current(hearer) == *old(app)
                &&& #[trigger] call_ensures(process_engine_events::<G, T>, (first, hearer), taken)
                &&& *final(app) == mut_ref_future(hearer)
                &&& *final(ctx) == mut_ref_future(first)
            },
        // For the update the marker of its beginning is put into the queue
        // and the queue is drained, the application is called, by one call
        // of `update`, with what that left, the marker of its end is put
        // into the queue and the queue is drained, and a redraw is asked
        // for. Each call is given the application and the context as the
        // step before it left them.
        loop_event_runs(*old(ctx), *event) && *event is MainEventsCleared ==> exists|
            first: &mut EngineContext<G>,
            hearer: &mut T,
            taken: usize,
            given: &mut EngineContext<G>,
            told: &mut T,
            second: &mut EngineContext<G>,
            heard: &mut T,
            left: usize,
        |
            {
                &&& mut_ref_current(first) == (EngineContext {
                    event_queue: mut_ref_current(first).event_queue,
                    ..*old(ctx)
                })
                &&& mut_ref_current(first).event_queue@ == old(ctx).event_queue@.push(
                    Event::PreUpdateEvent,
                )
                &&& mut_ref_current(hearer) == *old(app)
                &&& #[trigger] call_ensures(process_engine_events::<G, T>, (first, hearer), taken)
                &&& mut_ref_current(given) == mut_ref_future(first)
                &&& mut_ref_current(told) == mut_ref_future(hearer)
                &&& #[trigger] call_ensures(T::update, (told, given), ())
                &&& mut_ref_current(second) == (EngineContext {
                    event_queue: mut_ref_current(second).event_queue,
                    ..mut_ref_future(given)
                })
                &&& mut_ref_current(second).event_queue@ == mut_ref_future(given).event_queue@.push(
                    Event::PostUpdateEvent,
                )
                &&& mut_ref_current(heard) == mut_ref_future(told)
                &&& #[trigger] call_ensures(process_engine_events::<G, T>, (second, heard), left)
                &&& *final(app) == mut_ref_future(heard)
                &&& *final(ctx) == (EngineContext {
                    windowing_system: final(ctx).windowing_system,
                    ..mut_ref_future(second)
                })
                &&& final(ctx).windowing_system is Some
                &&& final(ctx).windowing_system->0.wants_redraw()
                &&& final(ctx).windowing_system->0.size()
                    == mut_ref_future(second).windowing_system->0.size()
                &&& final(ctx).windowing_system->0.quits_by_force()
                    == mut_ref_future(second).windowing_system->0.quits_by_force()
                &&& final(ctx).windowing_system->0.outbox()
                    == mut_ref_future(second).windowing_system->0.outbox()
            },
        // The rendering goes as the update does, with one call of `render`
        // and without a request at its end.
        loop_event_runs(*old(ctx), *event) && *event is RedrawRequested ==> exists|
            first: &mut EngineContext<G>,
            hearer: &mut T,
            taken: usize,
            given: &mut EngineContext<G>,
            told: &mut T,
            second: &mut EngineContext<G>,
            heard: &mut T,
            left: usize,
        |
            {
                &&& mut_ref_current(first) == (EngineContext {
                    event_queue: mut_ref_current(first).event_queue,
                    ..*old(ctx)
                })
                &&& mut_ref_current(first).event_queue@ == old(ctx).event_queue@.push(
                    Event::PreRenderEvent,
                )
                &&& mut_ref_current(hearer) == *old(app)
                &&& #[trigger] call_ensures(process_engine_events::<G, T>, (first, hearer), taken)
                &&& mut_ref_current(given) == mut_ref_future(first)
                &&& mut_ref_current(told) == mut_ref_future(hearer)
                &&& #[trigger] call_ensures(T::render, (told, given), ())
                &&& mut_ref_current(second) == (EngineContext {
                    event_queue: mut_ref_current(second).event_queue,
                    ..mut_ref_future(given)
                })
                &&& mut_ref_current(second).event_queue@ == mut_ref_future(given).event_queue@.push(
                    Event::PostRenderEvent,
                )
                &&& mut_ref_current(heard) == mut_ref_future(told)
                &&& #[trigger] call_ensures(process_engine_events::<G, T>, (second, heard), left)
                &&& *final(app) == mut_ref_future(heard)
                &&& *final(ctx) == mut_ref_future(second)
            },
{
    // The application is called through its functions as values: what is
    // known of such a call is what the application ensures of it.
    let close = T::close;
    let update = T::update;
    let render = T::render;
    let drain = process_engine_events::<G, T>;
    // If the application is to be closed, we may skip everything below.
    if let LoopEvent::LoopDestroyed = event {
        close(app, ctx);
        return ControlFlow::Poll;
    }
    // Even when the loop was told to exit, it still goes through the
    // outstanding events. A forced quit ignores them all.
    if unwrap_ref(&ctx.windowing_system).is_force_quit() {
        return ControlFlow::Exit;
    }
    let mut flow = ControlFlow::Poll;
    match event {
        LoopEvent::UserEvent(request) => {
            match request {
                Request::Quit => {
                    flow = ControlFlow::Exit;
                },
            }
        },
        LoopEvent::WindowEvent(window_event) => {
            match window_event {
                WindowEvent::CloseRequested => {
                    flow = ControlFlow::Exit;
                },
                WindowEvent::Resized(new_size) => {
                    unwrap_mut(&mut ctx.windowing_system).set_inner_size(*new_size);
                    // The event stays in the queue until the queue is drained next.
                    ctx.event_queue.push_event(
                        Event::WindowResizeEvent(WindowResizeEvent { new_size: *new_size }),
                    );
                },
                WindowEvent::ScaleFactorChanged { new_inner_size } => {
                    unwrap_mut(&mut ctx.windowing_system).set_inner_size(*new_inner_size);
                    ctx.event_queue.push_event(
                        Event::WindowResizeEvent(WindowResizeEvent { new_size: *new_inner_size }),
                    );
                },
                WindowEvent::ThemeChanged => {},
                WindowEvent::Moved => {},
                WindowEvent::Destroyed => {},
                input_evt => {
                    unwrap_mut(&mut ctx.input_system).receive_winit_windowing_event(input_evt);
                },
            }
        },
        LoopEvent::DeviceEvent => {
            unwrap_mut(&mut ctx.input_system).receive_winit_device_event();
        },
        LoopEvent::NewEvents => {
            unwrap_mut(&mut ctx.chrono_system).start_new_frame();
            // No event persists across frames: the queue is empty here.
            ctx.event_queue.push_event(Event::Start);
            proof {
                lemma_folds_push(
                    Seq::<Event>::empty(),
                    Event::Start,
                    PhysicalSize { width: 0, height: 0 },
                );
                assert(ctx.event_queue@ =~= seq![Event::Start]);
            }
            drain(ctx, app);
        },
        LoopEvent::MainEventsCleared => {
            let ghost queued = ctx.event_queue@;
            // Since the queue is FIFO, the outstanding events come first,
            // with the last being PreUpdateEvent
            ctx.event_queue.push_event(Event::PreUpdateEvent);
            proof {
                let size = if ctx.rendering_system is Some {
                    ctx.rendering_system->0.wgpu_state()@.window_inner_size()
                } else {
                    PhysicalSize { width: 0, height: 0 }
                };
                lemma_folds_push(queued, Event::PreUpdateEvent, size);
            }
            drain(ctx, app);
            let ghost before_update = *ctx;
            update(app, ctx);
            let ghost after_update = *ctx;
            ctx.event_queue.push_event(Event::PostUpdateEvent);
            proof {
                lemma_folds_push(
                    Seq::<Event>::empty(),
                    Event::PostUpdateEvent,
                    PhysicalSize { width: 0, height: 0 },
                );
            }
            drain(ctx, app);
            proof {
                lemma_drained_then(
                    *old(ctx),
                    queued,
                    before_update,
                    after_update,
                    Event::PostUpdateEvent,
                    *ctx,
                );
            }
            // After the update comes the rendering.
            unwrap_mut(&mut ctx.windowing_system).request_redraw();
        },
        LoopEvent::RedrawRequested => {
            let ghost queued = ctx.event_queue@;
            ctx.event_queue.push_event(Event::PreRenderEvent);
            proof {
                let size = if ctx.rendering_system is Some {
                    ctx.rendering_system->0.wgpu_state()@.window_inner_size()
                } else {
                    PhysicalSize { width: 0, height: 0 }
                };
                lemma_folds_push(queued, Event::PreRenderEvent, size);
            }
            drain(ctx, app);
            let ghost before_render = *ctx;
            render(app, ctx);
            let ghost after_render = *ctx;
            ctx.event_queue.push_event(Event::PostRenderEvent);
            proof {
                lemma_folds_push(
                    Seq::<Event>::empty(),
                    Event::PostRenderEvent,
                    PhysicalSize { width: 0, height: 0 },
                );
            }
            drain(ctx, app);
            proof {
                lemma_drained_then(
                    *old(ctx),
                    queued,
                    before_render,
                    after_render,
                    Event::PostRenderEvent,
                    *ctx,
                );
            }
        },
        _ => {},
    }
    flow
}

} // verus!
