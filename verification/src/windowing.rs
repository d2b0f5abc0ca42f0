//! The window as the engine sees it: its size, the requests that the engine
//! has for the event loop, and the events that the event loop has for the
//! engine.

use vstd::prelude::*;
use crate::context::EngineContext;
use crate::rendering::GpuBackend;
use crate::utils::unwrap_mut;

verus! {

/// A size in physical pixels.
#[derive(Debug, Copy, Clone, PartialEq, Eq, Hash, Structural)]
pub struct PhysicalSize {
    pub width: u32,
    pub height: u32,
}

impl PhysicalSize {
    /// Both dimensions are greater than zero.
    pub open spec fn has_area(self) -> bool {
        self.width > 0 && self.height > 0
    }
}

/// A request of the engine to the event loop in the form of a user event.
#[derive(Debug, Copy, Clone, PartialEq, Eq, Hash, Structural)]
pub enum Request {
    Quit,
}

/// What the event loop is to do once the engine has handled an event.
#[derive(Debug, Copy, Clone, PartialEq, Eq, Hash, Structural)]
pub enum ControlFlow {
    /// Start the next iteration at once, without waiting for input.
    Poll,
    /// Go through the outstanding events, then end the loop.
    Exit,
}

/// The state of the window that the engine keeps, and its outbox: the quit
/// requests and the redraw request that the owner of the native window has
/// still to pass on.
pub struct WindowingSystem {
    inner_size: PhysicalSize,
    force_quit: bool,
    redraw_requested: bool,
    requests: Vec<Request>,
}

impl WindowingSystem {
    /// The inner size of the window as last reported.
    pub closed spec fn size(&self) -> PhysicalSize {
        self.inner_size
    }

    /// The event loop is to ignore all outstanding events and quit.
    pub closed spec fn quits_by_force(&self) -> bool {
        self.force_quit
    }

    /// A redraw was asked for and has not been passed on yet.
    pub closed spec fn wants_redraw(&self) -> bool {
        self.redraw_requested
    }

    /// The requests that have not been passed on yet, oldest first.
    pub closed spec fn outbox(&self) -> Seq<Request> {
        self.requests@
    }

    /// The windowing system of a window with the given inner size.
    pub fn new(inner_size: PhysicalSize) -> (system: Self)
        ensures
            system.size() == inner_size,
            !system.quits_by_force(),
            !system.wants_redraw(),
            system.outbox() == Seq::<Request>::empty(),
    {
        WindowingSystem { inner_size, force_quit: false, redraw_requested: false, requests: Vec::new() }
    }

    /// The inner size of the window as last reported.
    pub fn get_inner_size(&self) -> (size: PhysicalSize)
        ensures
            size == self.size(),
    {
        self.inner_size
    }

    /// Records the inner size that the window reported.
    pub fn set_inner_size(&mut self, inner_size: PhysicalSize)
        ensures
            final(self).size() == inner_size,
            final(self).quits_by_force() == old(self).quits_by_force(),
            final(self).wants_redraw() == old(self).wants_redraw(),
            final(self).outbox() == old(self).outbox(),
    {
        self.inner_size = inner_size;
    }

    /// Whether `force_quit()` was called.
    pub fn is_force_quit(&self) -> (forced: bool)
        ensures
            forced == self.quits_by_force(),
    {
        self.force_quit
    }

    /// Puts a quit request into the outbox. Once it has reached the event
    /// loop, the loop goes through the queued events and exits.
    pub fn queue_quit(&mut self)
        ensures
            final(self).outbox() == old(self).outbox().push(Request::Quit),
            final(self).size() == old(self).size(),
            final(self).quits_by_force() == old(self).quits_by_force(),
            final(self).wants_redraw() == old(self).wants_redraw(),
    {
        self.requests.push(Request::Quit);
    }

    /// Makes the event loop quit without handling the outstanding events.
    pub fn force_quit(&mut self)
        ensures
            final(self).quits_by_force(),
            final(self).size() == old(self).size(),
            final(self).wants_redraw() == old(self).wants_redraw(),
            final(self).outbox() == old(self).outbox(),
    {
        self.force_quit = true;
    }

    /// Asks for a redraw of the window.
    pub fn request_redraw(&mut self)
        ensures
            final(self).wants_redraw(),
            final(self).size() == old(self).size(),
            final(self).quits_by_force() == old(self).quits_by_force(),
            final(self).outbox() == old(self).outbox(),
    {
        self.redraw_requested = true;
    }

    /// Hands out the pending redraw request, if there is one, and clears it.
    pub fn take_redraw_request(&mut self) -> (requested: bool)
        ensures
            requested == old(self).wants_redraw(),
            !final(self).wants_redraw(),
            final(self).size() == old(self).size(),
            final(self).quits_by_force() == old(self).quits_by_force(),
            final(self).outbox() == old(self).outbox(),
    {
        let requested = self.redraw_requested;
        self.redraw_requested = false;
        requested
    }

    /// Hands out the requests of the outbox, oldest first, and empties it.
    pub fn take_requests(&mut self) -> (requests: Vec<Request>)
        ensures
            requests@ == old(self).outbox(),
            final(self).outbox() == Seq::<Request>::empty(),
            final(self).size() == old(self).size(),
            final(self).quits_by_force() == old(self).quits_by_force(),
            final(self).wants_redraw() == old(self).wants_redraw(),
    {
        let mut requests: Vec<Request> = Vec::new();
        core::mem::swap(&mut self.requests, &mut requests);
        requests
    }
}

/// Whether a button went down or came up.
#[derive(Debug, Copy, Clone, PartialEq, Eq, Hash, Structural)]
pub enum ElementState {
    Pressed,
    Released,
}

/// A button of the mouse, as the window reports it.
#[derive(Debug, Copy, Clone, PartialEq, Eq, Hash, Structural)]
pub enum MouseButton {
    Left,
    Right,
    Middle,
    Other(u16),
}

/// The symbolic name of a keyboard key. The keys that the engine has
/// constants for are named; every other key is carried by its number.
#[derive(Debug, Copy, Clone, PartialEq, Eq, Hash, Structural)]
pub enum VirtualKeyCode {
    A,
    B,
    C,
    D,
    E,
    F,
    G,
    H,
    I,
    J,
    K,
    L,
    M,
    N,
    O,
    P,
    Q,
    R,
    S,
    T,
    U,
    V,
    W,
    X,
    Y,
    Z,
    Left,
    Up,
    Right,
    Down,
    Escape,
    Other(u32),
}

/// A key that went down or came up.
#[derive(Debug, Copy, Clone, PartialEq, Eq, Hash, Structural)]
pub struct KeyboardInput {
    /// Identifies the physical key.
    pub scancode: u32,
    pub state: ElementState,
    /// The symbolic name of the key, where the platform gives one.
    pub virtual_keycode: Option<VirtualKeyCode>,
}

/// Which modifier keys are held.
#[derive(Debug, Copy, Clone, PartialEq, Eq, Hash, Structural)]
pub struct ModifiersState {
    pub shift: bool,
    pub ctrl: bool,
    pub alt: bool,
    pub logo: bool,
}

/// An event of the window. A position is given by the bits of its two
/// IEEE 754 double precision coordinates.
#[derive(Debug, Copy, Clone, PartialEq, Eq, Hash, Structural)]
pub enum WindowEvent {
    Resized(PhysicalSize),
    ScaleFactorChanged { new_inner_size: PhysicalSize },
    CloseRequested,
    ThemeChanged,
    Moved,
    Destroyed,
    DroppedFile,
    HoveredFile,
    HoveredFileCancelled,
    Touch,
    Focused(bool),
    TouchpadPressure,
    AxisMotion,
    ReceivedCharacter(char),
    CursorMoved { x_bits: u64, y_bits: u64 },
    CursorEntered,
    CursorLeft,
    ModifiersChanged(ModifiersState),
    KeyboardInput { input: KeyboardInput, is_synthetic: bool },
    MouseInput { state: ElementState, button: MouseButton },
    MouseWheel,
}

impl WindowEvent {
    /// The events that the input system is given: all but those about the
    /// window itself, which the event loop's handler deals with.
    pub open spec fn is_input(self) -> bool {
        !(self is Resized || self is ScaleFactorChanged || self is CloseRequested
            || self is ThemeChanged || self is Moved || self is Destroyed)
    }

    /// Whether the event is one of those that the input system is given.
    pub fn is_input_event(&self) -> (input: bool)
        ensures
            input == self.is_input(),
    {
        match self {
            WindowEvent::Resized(_) => false,
            WindowEvent::ScaleFactorChanged { .. } => false,
            WindowEvent::CloseRequested => false,
            WindowEvent::ThemeChanged => false,
            WindowEvent::Moved => false,
            WindowEvent::Destroyed => false,
            _ => true,
        }
    }
}

/// An event of the event loop.
#[derive(Debug, Copy, Clone, PartialEq, Eq, Hash, Structural)]
pub enum LoopEvent {
    /// A new iteration of the loop begins: the start of a frame.
    NewEvents,
    /// A request that the engine sent to the loop has arrived.
    UserEvent(Request),
    WindowEvent(WindowEvent),
    DeviceEvent,
    /// All events of this iteration were delivered: time to update.
    MainEventsCleared,
    /// The window is to be drawn: time to render.
    RedrawRequested,
    RedrawEventsCleared,
    /// The loop ends.
    LoopDestroyed,
    /// Any other event of the loop.
    Other,
}

/// Sends a quit request to the event loop. This will, (possibly after a
/// delay, as queued events will still be processed), cause the loop to
/// exit. `Application::close()` will be automatically called, there is no
/// need for you to call it.
pub fn queue_quit<G: GpuBackend>(ctx: &mut EngineContext<G>)
    requires
        old(ctx).windowing_system is Some,
    ensures
        final(ctx).windowing_system is Some,
        final(ctx).windowing_system->0.outbox() == old(ctx).windowing_system->0.outbox().push(
            Request::Quit,
        ),
        final(ctx).windowing_system->0.quits_by_force() == old(ctx).windowing_system->0.quits_by_force(),
        final(ctx).windowing_system->0.size() == old(ctx).windowing_system->0.size(),
        final(ctx).windowing_system->0.wants_redraw() == old(ctx).windowing_system->0.wants_redraw(),
        *final(ctx) == (EngineContext { windowing_system: final(ctx).windowing_system, ..*old(ctx) }),
{
    unwrap_mut(&mut ctx.windowing_system).queue_quit()
}

/// Forces the event loop to quit, ignoring all outstanding events.
/// `Application::close()` will be automatically called, there is no need
/// for you to call it.
pub fn force_quit<G: GpuBackend>(ctx: &mut EngineContext<G>)
    requires
        old(ctx).windowing_system is Some,
    ensures
        final(ctx).windowing_system is Some,
        final(ctx).windowing_system->0.quits_by_force(),
        final(ctx).windowing_system->0.outbox() == old(ctx).windowing_system->0.outbox(),
        final(ctx).windowing_system->0.size() == old(ctx).windowing_system->0.size(),
        final(ctx).windowing_system->0.wants_redraw() == old(ctx).windowing_system->0.wants_redraw(),
        *final(ctx) == (EngineContext { windowing_system: final(ctx).windowing_system, ..*old(ctx) }),
{
    unwrap_mut(&mut ctx.windowing_system).force_quit()
}

} // verus!
