use vstd::prelude::*;

use crate::canvas::CanvasModel;
use crate::canvas::UNIT_SCALE_MILLI;
use crate::error::BootstrapError;
use crate::window::WindowInfo;

verus! {

/// The fixed identifier under which the host document must hold the drawing
/// surface element. Changing it is a code change, not configuration.
pub fn canvas_element_id() -> (s: &'static str)
    ensures
        s@ == "canvas"@,
{
    "canvas"
}

/// The host-owned drawing surface element, reduced to its identity: the
/// handler at the end of an embedded bootstrap wraps exactly this element.
#[derive(Clone, Copy, Debug, PartialEq, Eq, Structural)]
pub struct ElementInfo {
    pub handle: u64,
}

/// The outcome of looking the drawing surface element up in the host
/// environment: each of the three lookup/cast failure points, or the element.
#[derive(Clone, Copy, Debug)]
pub enum HostLookup {
    /// The host environment offered no document to search.
    DocumentMissing,
    /// The document holds no element under the fixed identifier.
    ElementMissing,
    /// The element found is not of the expected drawing-surface type.
    TypeMismatch,
    /// The element was found and has the expected type.
    Canvas(ElementInfo),
}

/// The element has been located; only now may a renderer be constructed.
pub struct ElementLocated {
    pub element: ElementInfo,
}

/// The renderer has been constructed directly from the element. The host
/// environment manages the GPU context, so no explicit context or surface is
/// ever represented on this path.
pub struct EmbeddedRendererReady {
    pub element: ElementInfo,
}

/// A window wrapping the same host element has been created.
pub struct EmbeddedWindowCreated {
    pub element: ElementInfo,
    pub window: WindowInfo,
}

/// The canvas has been constructed over the renderer: everything the
/// coordinator assembles into the handler on the embedded target.
pub struct EmbeddedCanvasReady {
    pub element: ElementInfo,
    pub window: WindowInfo,
    pub canvas: CanvasModel,
}

impl EmbeddedWindowCreated {
    /// The window wraps exactly the located host element.
    pub open spec fn wf(self) -> bool {
        self.window.host_element_id == Some(self.element.handle)
    }
}

impl EmbeddedCanvasReady {
    /// Ready for assembly: the window wraps exactly the located host element,
    /// and the canvas's size was left to the host (never set here).
    pub open spec fn wf(self) -> bool {
        &&& self.window.host_element_id == Some(self.element.handle)
        &&& !self.canvas.sized
    }
}

/// Locate the drawing surface element in the host environment. Each of the
/// three lookup/cast failure points is fatal, and fails the bootstrap before
/// any renderer is constructed: a renderer can only be built from the located
/// element this step returns.
pub fn locate_canvas_element(lookup: HostLookup) -> (r: Result<ElementLocated, BootstrapError>)
    ensures
        lookup is DocumentMissing ==> r == Err::<ElementLocated, BootstrapError>(
            BootstrapError::HostDocumentMissing,
        ),
        lookup is ElementMissing ==> r == Err::<ElementLocated, BootstrapError>(
            BootstrapError::CanvasElementMissing,
        ),
        lookup is TypeMismatch ==> r == Err::<ElementLocated, BootstrapError>(
            BootstrapError::ElementTypeMismatch,
        ),
        lookup matches HostLookup::Canvas(e) ==> r == Ok::<ElementLocated, BootstrapError>(
            ElementLocated { element: e },
        ),
        r is Ok <==> lookup is Canvas,
{
    match lookup {
        HostLookup::DocumentMissing => Err(BootstrapError::HostDocumentMissing),
        HostLookup::ElementMissing => Err(BootstrapError::CanvasElementMissing),
        HostLookup::TypeMismatch => Err(BootstrapError::ElementTypeMismatch),
        HostLookup::Canvas(e) => Ok(ElementLocated { element: e }),
    }
}

impl ElementLocated {
    /// Record the outcome of constructing the renderer directly from the
    /// located element. Fails with `RendererConstructionFailed` exactly when
    /// construction failed.
    pub fn attach_renderer(self, renderer_created: bool) -> (r: Result<
        EmbeddedRendererReady,
        BootstrapError,
    >)
        ensures
            !renderer_created ==> r == Err::<EmbeddedRendererReady, BootstrapError>(
                BootstrapError::RendererConstructionFailed,
            ),
            renderer_created ==> r == Ok::<EmbeddedRendererReady, BootstrapError>(
                EmbeddedRendererReady { element: self.element },
            ),
    {
        if renderer_created {
            Ok(EmbeddedRendererReady { element: self.element })
        } else {
            Err(BootstrapError::RendererConstructionFailed)
        }
    }
}

impl EmbeddedRendererReady {
    /// Attach the window created with default attributes plus the association
    /// to the same host element. Fails with `WindowCreationFailed` exactly
    /// when no window was returned.
    pub fn create_window(self, window: Option<WindowInfo>) -> (r: Result<
        EmbeddedWindowCreated,
        BootstrapError,
    >)
        requires
            window matches Some(w) ==> w.host_element_id == Some(self.element.handle),
        ensures
            window is None ==> r == Err::<EmbeddedWindowCreated, BootstrapError>(
                BootstrapError::WindowCreationFailed,
            ),
            window matches Some(w) ==> r == Ok::<EmbeddedWindowCreated, BootstrapError>(
                EmbeddedWindowCreated { element: self.element, window: w },
            ),
            r matches Ok(st) ==> st.wf(),
    {
        match window {
            Some(w) => Ok(EmbeddedWindowCreated { element: self.element, window: w }),
            None => Err(BootstrapError::WindowCreationFailed),
        }
    }
}

impl EmbeddedWindowCreated {
    /// Construct the canvas over the renderer. No size is set on this path:
    /// the host element already has one. `canvas_backed` is the outcome of
    /// the canvas-construction call; when it failed, the step fails with
    /// `CanvasConstructionFailed`.
    pub fn build_canvas(self, canvas_backed: bool) -> (r: Result<
        EmbeddedCanvasReady,
        BootstrapError,
    >)
        requires
            self.wf(),
        ensures
            !canvas_backed ==> r == Err::<EmbeddedCanvasReady, BootstrapError>(
                BootstrapError::CanvasConstructionFailed,
            ),
            canvas_backed ==> r == Ok::<EmbeddedCanvasReady, BootstrapError>(
                EmbeddedCanvasReady {
                    element: self.element,
                    window: self.window,
                    canvas: CanvasModel {
                        width: 0,
                        height: 0,
                        scale_milli: UNIT_SCALE_MILLI,
                        sized: false,
                    },
                },
            ),
            r matches Ok(st) ==> st.wf(),
    {
        match CanvasModel::new(canvas_backed) {
            Ok(canvas) => Ok(
                EmbeddedCanvasReady { element: self.element, window: self.window, canvas },
            ),
            Err(e) => Err(e),
        }
    }
}

} // verus!
