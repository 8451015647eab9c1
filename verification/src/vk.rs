//! Errors of the graphics-backend setup, and the one decision of that setup
//! that is plain logic: turning an optional window-size query result into
//! either usable pixel dimensions or a startup error.

use vstd::prelude::*;

verus! {

/// Failure of the windowing side of backend initialization: the window could
/// not report its client-area dimensions.
#[derive(Clone, Copy, Debug, PartialEq, Eq)]
pub enum VKError {
    VKWindowError,
}

/// Decides what backend setup does with the window's reported client-area
/// size: a reported size becomes the pixel dimensions of the swapchain to
/// build, and a window that reports none is a startup failure.
pub fn win_dimensions(size: Option<(u32, u32)>) -> (r: Result<(u32, u32), VKError>)
    ensures
        match size {
            Some(d) => r == Ok::<(u32, u32), VKError>(d),
            None => r == Err::<(u32, u32), VKError>(VKError::VKWindowError),
        },
{
    match size {
        Some(d) => Ok(d),
        None => Err(VKError::VKWindowError),
    }
}

} // verus!
