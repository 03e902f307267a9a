use vstd::prelude::*;

use crate::error::BootstrapError;

verus! {

/// A scale factor of exactly one, in thousandths: the size a canvas reports
/// before its working size has been set.
pub const UNIT_SCALE_MILLI: u32 = 1000;

/// The 2D drawing canvas layered over the renderer, reduced to what the
/// bootstrap logic establishes about it: its recorded pixel size, its
/// recorded scale factor (in thousandths), and whether its working size has
/// been set yet. On native targets the coordinator sets the size exactly
/// once, to the window's physical size; on the embedded target the host
/// environment manages the size and it is never set here.
#[derive(Clone, Copy, Debug, PartialEq, Eq, Structural)]
pub struct CanvasModel {
    pub width: u32,
    pub height: u32,
    pub scale_milli: u32,
    pub sized: bool,
}

impl CanvasModel {
    /// Construct the canvas over the renderer. `renderer_backed` is the
    /// outcome of the canvas-construction call: when the renderer cannot back
    /// a canvas this fails — a failure distinct from renderer construction
    /// itself. A fresh canvas reports a zero size at unit scale until its
    /// working size is set.
    pub fn new(renderer_backed: bool) -> (r: Result<CanvasModel, BootstrapError>)
        ensures
            renderer_backed ==> r == Ok::<CanvasModel, BootstrapError>(
                CanvasModel { width: 0, height: 0, scale_milli: UNIT_SCALE_MILLI, sized: false },
            ),
            !renderer_backed ==> r == Err::<CanvasModel, BootstrapError>(
                BootstrapError::CanvasConstructionFailed,
            ),
    {
        if renderer_backed {
            Ok(CanvasModel { width: 0, height: 0, scale_milli: UNIT_SCALE_MILLI, sized: false })
        } else {
            Err(BootstrapError::CanvasConstructionFailed)
        }
    }

    /// Set the canvas's working size. Called exactly once per window, so it
    /// is a misuse to call it on a canvas that was already sized.
    pub fn set_size(&mut self, width: u32, height: u32, scale_milli: u32)
        requires
            !old(self).sized,
        ensures
            *final(self) == (CanvasModel { width, height, scale_milli, sized: true }),
    {
        self.width = width;
        self.height = height;
        self.scale_milli = scale_milli;
        self.sized = true;
    }
}

} // verus!
