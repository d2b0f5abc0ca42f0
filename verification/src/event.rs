//! Engine events and their queue. Not to be used for user events.

use std::collections::VecDeque;
use vstd::prelude::*;
use crate::context::EngineContext;
use crate::rendering::GpuBackend;
use crate::windowing::PhysicalSize;

verus! {

/// The window was resized to `new_size`.
#[derive(Debug, Copy, Clone, PartialEq, Eq, Hash, Structural)]
pub struct WindowResizeEvent {
    pub new_size: PhysicalSize,
}

/// An engine event.
#[derive(Debug, Copy, Clone, PartialEq, Eq, Hash, Structural)]
pub enum Event {
    /// Called once the window is resized.
    WindowResizeEvent(WindowResizeEvent),
    /// Called at the start of a frame, before its input events.
    Start,
    /// Called before `Application::update()`.
    PreUpdateEvent,
    /// Called right after `Application::update()`.
    PostUpdateEvent,
    /// Called before `Application::render()`.
    PreRenderEvent,
    /// Called just after `Application::render()`.
    PostRenderEvent,
}

/// The kind of an engine event, without what the event carries.
#[derive(Debug, Copy, Clone, PartialEq, Eq, Hash, Structural)]
pub enum EventType {
    WindowResizeEvent,
    StartEvent,
    PreUpdateEvent,
    PostUpdateEvent,
    PreRenderEvent,
    PostRenderEvent,
}

impl Event {
    /// The kind of the event.
    pub open spec fn kind(self) -> EventType {
        match self {
            Event::WindowResizeEvent(_) => EventType::WindowResizeEvent,
            Event::Start => EventType::StartEvent,
            Event::PreUpdateEvent => EventType::PreUpdateEvent,
            Event::PostUpdateEvent => EventType::PostUpdateEvent,
            Event::PreRenderEvent => EventType::PreRenderEvent,
            Event::PostRenderEvent => EventType::PostRenderEvent,
        }
    }

    /// The kind of the event.
    pub fn event_type(&self) -> (evt_type: EventType)
        ensures
            evt_type == self.kind(),
    {
        match self {
            Event::WindowResizeEvent(_) => EventType::WindowResizeEvent,
            Event::Start => EventType::StartEvent,
            Event::PreUpdateEvent => EventType::PreUpdateEvent,
            Event::PostUpdateEvent => EventType::PostUpdateEvent,
            Event::PreRenderEvent => EventType::PreRenderEvent,
            Event::PostRenderEvent => EventType::PostRenderEvent,
        }
    }
}

/// FIFO queue of engine events.
pub struct EventQueue {
    queue: VecDeque<Event>,
}

impl EventQueue {
    /// The queued events, the one that leaves next first.
    pub closed spec fn view(&self) -> Seq<Event> {
        self.queue@
    }

    /// A queue without events.
    pub fn new() -> (queue: Self)
        ensures
            queue@ == Seq::<Event>::empty(),
    {
        EventQueue { queue: VecDeque::new() }
    }

    /// Adds an event to the end of the queue.
    pub fn push_event(&mut self, evt: Event)
        ensures
            final(self)@ == old(self)@.push(evt),
    {
        self.queue.push_back(evt);
    }

    /// Takes the first event, removes it from the queue, and returns it.
    /// Returns None if there are no events in the queue.
    pub fn retrieve_event(&mut self) -> (evt: Option<Event>)
        ensures
            old(self)@.len() == 0 ==> evt is None && final(self)@ == old(self)@,
            old(self)@.len() > 0 ==> evt == Some(old(self)@[0]) && final(self)@ == old(self)@.drop_first(),
    {
        self.queue.pop_front()
    }

    /// Whether the queue holds no event.
    pub fn is_empty(&self) -> (empty: bool)
        ensures
            empty == (self@.len() == 0),
    {
        self.queue.len() == 0
    }

    /// The number of queued events.
    pub fn len(&self) -> (len: usize)
        ensures
            len == self@.len(),
    {
        self.queue.len()
    }

    /// The number of `Start` events in the queue.
    pub fn starts(&self) -> (count: usize)
        ensures
            count == starts_in(self@),
    {
        let len = self.queue.len();
        let mut count: usize = 0;
        let mut i: usize = 0;
        assert(self@.subrange(0, 0) =~= Seq::<Event>::empty());
        while i < len
            invariant
                len == self@.len(),
                i <= len,
                count <= i,
                count == starts_in(self@.subrange(0, i as int)),
            decreases len - i,
        {
            let is_start = match self.queue[i] {
                Event::Start => true,
                _ => false,
            };
            proof {
                let next = self@.subrange(0, i + 1);
                assert(next.drop_last() =~= self@.subrange(0, i as int));
                assert(next.last() == self@[i as int]);
            }
            if is_start {
                count += 1;
            }
            i += 1;
        }
        assert(self@.subrange(0, len as int) =~= self@);
        count
    }
}

/// A system of the engine that is told of events. Internal engine systems
/// only.
pub trait EventReceiver<G: GpuBackend> {
    /// The kinds of events that the system is told of.
    spec fn receives(evt_type: EventType) -> bool;

    /// What the system needs of the context to take the event.
    spec fn accepts(ctx: EngineContext<G>, evt: Event) -> bool;

    /// What the system makes of the context when it is told of the event.
    spec fn received(pre: EngineContext<G>, evt: Event, post: EngineContext<G>) -> bool;

    fn receives_event_type(evt_type: EventType) -> (receives: bool)
        ensures
            receives == Self::receives(evt_type),
    ;

    /// Will be called iff `receives_event_type()` returns true for the event's type
    fn receive_event(ctx: &mut EngineContext<G>, evt: Event)
        requires
            Self::receives(evt.kind()),
            Self::accepts(*old(ctx), evt),
        ensures
            Self::received(*old(ctx), evt, *final(ctx)),
    ;
}

/// Calls receive_event iff `receives_event_type` is true.
pub fn inform_receiver<G: GpuBackend, T: EventReceiver<G>>(ctx: &mut EngineContext<G>, evt: Event)
    requires
        T::receives(evt.kind()) ==> T::accepts(*old(ctx), evt),
    ensures
        T::receives(evt.kind()) ==> T::received(*old(ctx), evt, *final(ctx)),
        !T::receives(evt.kind()) ==> *final(ctx) == *old(ctx),
{
    if T::receives_event_type(evt.event_type()) {
        T::receive_event(ctx, evt)
    }
}

/// The number of `Start` events among `events`.
pub open spec fn starts_in(events: Seq<Event>) -> nat
    decreases events.len(),
{
    if events.len() == 0 {
        0
    } else {
        starts_in(events.drop_last()) + if events.last() is Start {
            1nat
        } else {
            0nat
        }
    }
}

/// The inner size that the window has after `events`, if it had `size`
/// before: that of the last resize to a size without a dimension of zero.
pub open spec fn resized_by(events: Seq<Event>, size: PhysicalSize) -> PhysicalSize
    decreases events.len(),
{
    if events.len() == 0 {
        size
    } else {
        match events.last() {
            Event::WindowResizeEvent(resize) if resize.new_size.has_area() => resize.new_size,
            _ => resized_by(events.drop_last(), size),
        }
    }
}

} // verus!
