//! Bootstrap of a hardware-accelerated 2D drawing surface: negotiate a
//! pixel format, create a window, build and activate a GPU context, wrap a
//! renderer in a canvas, and assemble the application handler that owns all
//! of it. The fallible, order-dependent steps are modelled as a one-shot
//! forward state machine over plain values; the surrounding program performs
//! each platform call and hands its outcome to the corresponding step.

use vstd::prelude::*;

pub mod canvas;
pub mod context;
pub mod embedded;
pub mod error;
pub mod handler;
pub mod native;
pub mod pixel_format;
pub mod window;

use crate::embedded::EmbeddedCanvasReady;
use crate::handler::MyApplicationHandler;
use crate::native::NativeCanvasReady;
use crate::window::WindowInfo;

verus! {

/// The fixed default view scale the coordinator sets on every handler.
pub const DEFAULT_VIEW_SCALE: u32 = 50;

/// What provisioning produced for the current platform: the native variant
/// carries the current context and the surface beside window and canvas; the
/// embedded variant carries only window and canvas, the host environment
/// owning the rest.
pub enum ProvisionOutcome {
    Native(NativeCanvasReady),
    Embedded(EmbeddedCanvasReady),
}

/// A provision outcome is well-formed when its final bootstrap state is.
pub open spec fn outcome_wf(outcome: ProvisionOutcome) -> bool {
    match outcome {
        ProvisionOutcome::Native(n) => n.wf(),
        ProvisionOutcome::Embedded(e) => e.wf(),
    }
}

/// Assemble the application handler from what provisioning produced: set the
/// fixed default view scale, request input focus for the window, and hand
/// every bootstrap-produced resource plus the caller's domain objects to the
/// handler. Any earlier failure has already halted the bootstrap, so this
/// never runs on a partially-valid outcome; the handler it returns is
/// well-formed, and on a native outcome the canvas's recorded size and scale
/// factor equal the window's.
pub fn init_canvas<E>(outcome: ProvisionOutcome, equations: Vec<E>) -> (h: MyApplicationHandler<E>)
    requires
        outcome_wf(outcome),
    ensures
        h.wf(),
        h.default_scale == DEFAULT_VIEW_SCALE,
        h.window.focus_requested,
        h.equations == equations,
        match outcome {
            ProvisionOutcome::Native(n) => {
                &&& h.window == (WindowInfo { focus_requested: true, ..n.window })
                &&& h.canvas == n.canvas
                &&& h.context == Some(n.current)
                &&& h.surface == Some(n.surface)
                &&& h.canvas.width == h.window.physical_width
                &&& h.canvas.height == h.window.physical_height
                &&& h.canvas.scale_milli == h.window.scale_milli
            },
            ProvisionOutcome::Embedded(e) => {
                &&& h.window == (WindowInfo { focus_requested: true, ..e.window })
                &&& h.canvas == e.canvas
                &&& h.context is None
                &&& h.surface is None
                &&& h.window.host_element_id == Some(e.element.handle)
            },
        },
{
    match outcome {
        ProvisionOutcome::Native(n) => {
            let NativeCanvasReady { mut window, current, surface, canvas } = n;
            window.request_focus();
            MyApplicationHandler::new(
                window,
                Some(current),
                Some(surface),
                canvas,
                DEFAULT_VIEW_SCALE,
                equations,
            )
        },
        ProvisionOutcome::Embedded(e) => {
            let EmbeddedCanvasReady { element: _, mut window, canvas } = e;
            window.request_focus();
            MyApplicationHandler::new(window, None, None, canvas, DEFAULT_VIEW_SCALE, equations)
        },
    }
}

} // verus!
