//! The render-surface adapter: the answers the surface gives the graphics
//! layer when it asks for the framebuffer size, a buffer swap, or the
//! current-context status.
//!
//! The surface itself belongs to the GUI toolkit. The program queries it for
//! its live allocation and hands the raw values here; the adapter's only work
//! is to decide what to report back.

use vstd::prelude::*;

verus! {

/// The ways a buffer swap could fail. The toolkit performs the swap itself
/// after every render notification, so the adapter never reports either.
#[derive(Clone, Copy, Debug, PartialEq, Eq, Structural)]
pub enum SwapError {
    /// The rendering context was lost.
    ContextLost,
    /// The buffers were already swapped for this frame.
    AlreadySwapped,
}

/// Converts a surface allocation, as the toolkit reports it, into framebuffer
/// dimensions in pixels.
///
/// The allocation must be re-queried each frame so the dimensions track the
/// live surface size after a resize; a nonnegative allocation is reported
/// unchanged. A negative extent (which a real allocation never has) wraps to
/// the native unsigned width, as a plain integer cast does.
pub fn framebuffer_dimensions(width: i32, height: i32) -> (dims: (u32, u32))
    ensures
        dims.0 == width as u32,
        dims.1 == height as u32,
        width >= 0 ==> dims.0 == width,
        height >= 0 ==> dims.1 == height,
{
    (
        #[verifier::truncate] (width as u32),
        #[verifier::truncate] (height as u32),
    )
}

/// Reports the outcome of a buffer swap: always success, and a no-op, because
/// the owning toolkit swaps the buffers itself after each render notification
/// and the adapter must not duplicate that.
pub fn swap_buffers() -> (result: Result<(), SwapError>)
    ensures
        result == Ok::<(), SwapError>(()),
{
    Ok(())
}

/// Reports whether the rendering context is current: always true, because the
/// toolkit makes the context current before it invokes the render
/// notification, and the adapter is only queried from inside one.
pub fn is_current() -> (current: bool)
    ensures
        current,
{
    true
}

} // verus!
