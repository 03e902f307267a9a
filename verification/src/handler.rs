use vstd::prelude::*;

use crate::canvas::CanvasModel;
use crate::context::CurrentContext;
use crate::context::SurfaceHandle;
use crate::window::WindowInfo;

verus! {

/// The long-lived aggregate the coordinator assembles once and hands to the
/// caller: the window, the canvas, on native targets the current context and
/// the surface (absent on the embedded target, where the host owns them), the
/// fixed default view scale, and the caller-supplied domain objects, opaque
/// to this crate.
pub struct MyApplicationHandler<E> {
    pub window: WindowInfo,
    pub context: Option<CurrentContext>,
    pub surface: Option<SurfaceHandle>,
    pub canvas: CanvasModel,
    pub default_scale: u32,
    pub equations: Vec<E>,
}

impl<E> MyApplicationHandler<E> {
    /// A handler is well-formed when it was assembled whole: on a native
    /// target it owns both context and surface, the context is bound to
    /// exactly that surface on the window's display, and the canvas's
    /// recorded size and scale factor equal the window's; on the embedded
    /// target it owns neither, and the window wraps a host element whose size
    /// the canvas was left to.
    pub open spec fn wf(self) -> bool {
        match (self.context, self.surface) {
            (Some(c), Some(s)) => {
                &&& c.surface_id == s.id
                &&& c.display_id == self.window.display_id
                &&& s.display_id == self.window.display_id
                &&& self.canvas.sized
                &&& self.canvas.width == self.window.physical_width
                &&& self.canvas.height == self.window.physical_height
                &&& self.canvas.scale_milli == self.window.scale_milli
            },
            (None, None) => self.window.host_element_id is Some && !self.canvas.sized,
            _ => false,
        }
    }

    /// Assemble the handler from the bootstrap-produced resources. A plain
    /// constructor: each field holds exactly what was passed in.
    pub fn new(
        window: WindowInfo,
        context: Option<CurrentContext>,
        surface: Option<SurfaceHandle>,
        canvas: CanvasModel,
        default_scale: u32,
        equations: Vec<E>,
    ) -> (h: MyApplicationHandler<E>)
        ensures
            h == (MyApplicationHandler {
                window,
                context,
                surface,
                canvas,
                default_scale,
                equations,
            }),
    {
        MyApplicationHandler { window, context, surface, canvas, default_scale, equations }
    }
}

} // verus!
