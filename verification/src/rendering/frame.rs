//! The render target of a frame and the states of its possession.

use vstd::prelude::*;
use super::GpuBackend;

verus! {

/// Represents the resources necessary to render a frame to screen, which
/// are created when the rendering of a frame starts, used as needed,
/// including possibly lending them to other systems, and finally given back
/// in order to complete the rendering.
pub struct FrameRenderTarget<G: GpuBackend> {
    // The view has to be dropped before the frame, so it is declared first.
    pub view: G::TextureView,
    pub frame: G::SurfaceFrame,
    pub encoder: G::CommandEncoder,
}

/// Who has the render target of the frame.
#[derive(Debug, Copy, Clone, PartialEq, Eq, Hash, Structural)]
pub enum FrameState {
    /// No frame is being rendered.
    Empty,
    /// A frame is being rendered and the rendering system has its target.
    Owned,
    /// A frame is being rendered and its target was lent out.
    Lent,
}

/// A misuse of the render target of the frame.
#[derive(Debug, Copy, Clone, PartialEq, Eq, Hash, Structural)]
pub enum RenderMisuse {
    /// No frame render target: the rendering of a frame was not started.
    NoFrame,
    /// The frame render target was taken from the rendering system but not
    /// given back yet.
    FrameLent,
    /// The rendering of a frame was started and has not been completed.
    FrameInFlight,
}

impl FrameState {
    /// Starting the rendering of a frame: from `Empty` to `Owned`.
    pub open spec fn start(self) -> Result<FrameState, RenderMisuse> {
        match self {
            FrameState::Empty => Ok(FrameState::Owned),
            FrameState::Owned => Err(RenderMisuse::FrameInFlight),
            FrameState::Lent => Err(RenderMisuse::FrameLent),
        }
    }

    /// Lending the target out: from `Owned` to `Lent`.
    pub open spec fn lend(self) -> Result<FrameState, RenderMisuse> {
        match self {
            FrameState::Empty => Err(RenderMisuse::NoFrame),
            FrameState::Owned => Ok(FrameState::Lent),
            FrameState::Lent => Err(RenderMisuse::FrameLent),
        }
    }

    /// Taking the target back: from `Lent` to `Owned`.
    pub open spec fn take_back(self) -> Result<FrameState, RenderMisuse> {
        match self {
            FrameState::Empty => Err(RenderMisuse::NoFrame),
            FrameState::Owned => Err(RenderMisuse::FrameInFlight),
            FrameState::Lent => Ok(FrameState::Owned),
        }
    }

    /// Completing the rendering of the frame: from `Owned` to `Empty`.
    pub open spec fn complete(self) -> Result<FrameState, RenderMisuse> {
        match self {
            FrameState::Empty => Err(RenderMisuse::NoFrame),
            FrameState::Owned => Ok(FrameState::Empty),
            FrameState::Lent => Err(RenderMisuse::FrameLent),
        }
    }

    /// The state after an operation: the new state where the operation is
    /// in order, the old one where it is a misuse.
    pub open spec fn after(self, step: Result<FrameState, RenderMisuse>) -> FrameState {
        match step {
            Ok(next) => next,
            Err(_) => self,
        }
    }

    /// Right after a start that was in order, completing succeeds once:
    /// completing again fails, however often it is tried, and so does
    /// completing with no start before it.
    pub proof fn lemma_complete_succeeds_once(self)
        requires
            self.start() is Ok,
        ensures
            self.start()->Ok_0.complete() == Ok::<FrameState, RenderMisuse>(FrameState::Empty),
            FrameState::Empty.complete() == Err::<FrameState, RenderMisuse>(RenderMisuse::NoFrame),
            FrameState::Empty.after(FrameState::Empty.complete()) == FrameState::Empty,
    {
    }

    /// Exactly one frame is in flight: a start is in order only when no
    /// frame is being rendered, and a second borrow only after the target
    /// came back.
    pub proof fn lemma_one_frame_in_flight(self)
        ensures
            self.start() is Ok <==> self == FrameState::Empty,
            self.lend() is Ok <==> self == FrameState::Owned,
            self.complete() is Ok <==> self == FrameState::Owned,
            self.take_back() is Ok <==> self == FrameState::Lent,
            self.lend() is Ok ==> self.lend()->Ok_0.lend() is Err,
            self.lend() is Ok ==> self.lend()->Ok_0.take_back() == Ok::<FrameState, RenderMisuse>(self),
    {
    }
}

/// Holds the render target of the frame, if the rendering system has it.
pub enum FrtHolder<G: GpuBackend> {
    Owned(FrameRenderTarget<G>),
    /// The target was taken and has not been given back yet.
    Given,
    /// No frame is being rendered.
    Empty,
}

impl<G: GpuBackend> FrtHolder<G> {
    /// Who has the render target.
    pub open spec fn state(&self) -> FrameState {
        match self {
            FrtHolder::Owned(_) => FrameState::Owned,
            FrtHolder::Given => FrameState::Lent,
            FrtHolder::Empty => FrameState::Empty,
        }
    }

    /// Who has the render target.
    pub fn frame_state(&self) -> (state: FrameState)
        ensures
            state == self.state(),
    {
        match self {
            FrtHolder::Owned(_) => FrameState::Owned,
            FrtHolder::Given => FrameState::Lent,
            FrtHolder::Empty => FrameState::Empty,
        }
    }
}

} // verus!
