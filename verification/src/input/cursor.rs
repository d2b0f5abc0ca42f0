//! The cursor: whether it is over the window, and where.

use vstd::prelude::*;
use crate::context::EngineContext;
use crate::rendering::GpuBackend;
use crate::utils::unwrap_ref;

verus! {

#[derive(Debug, Copy, Clone, PartialEq, Eq, Hash, Structural)]
pub enum CursorState {
    Unknown,
    OutsideScreen,
    InsideScreen,
}

/// A position in physical pixels from the top left of the window. Each
/// coordinate is kept as the bits of an IEEE 754 double precision number.
#[derive(Debug, Copy, Clone, PartialEq, Eq, Hash, Structural)]
pub struct CursorPosition {
    pub x_bits: u64,
    pub y_bits: u64,
}

/// The bits of the quiet not-a-number that stands for an unknown coordinate.
pub const UNKNOWN_COORDINATE_BITS: u64 = 0x7ff8_0000_0000_0000;

/// Returns whether the cursor is inside the screen.
/// If state is unknown, returns false
pub fn is_cursor_inside_screen<G: GpuBackend>(ctx: &EngineContext<G>) -> (inside: bool)
    requires
        ctx.input_system is Some,
    ensures
        inside == (ctx.input_system->0@.cursor_state is InsideScreen),
{
    let (state, _) = get_cursor_info(ctx);
    match state {
        CursorState::Unknown => false,
        CursorState::OutsideScreen => false,
        CursorState::InsideScreen => true,
    }
}

/// Returns an option, with the None option if the cursor is outside the screen (or unknown).
pub fn get_cursor_position<G: GpuBackend>(ctx: &EngineContext<G>) -> (position: Option<CursorPosition>)
    requires
        ctx.input_system is Some,
    ensures
        position == ctx.input_system->0@.cursor_info().1,
{
    let (_, pos) = get_cursor_info(ctx);
    pos
}

/// The state of the cursor, and its position if it is inside the screen.
pub fn get_cursor_info<G: GpuBackend>(ctx: &EngineContext<G>) -> (info: (
    CursorState,
    Option<CursorPosition>,
))
    requires
        ctx.input_system is Some,
    ensures
        info == ctx.input_system->0@.cursor_info(),
{
    unwrap_ref(&ctx.input_system).cursor_info()
}

} // verus!
