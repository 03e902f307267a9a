use vstd::prelude::*;

verus! {

/// Every failure during bootstrap is fatal: there is no retry policy and no
/// degraded-mode fallback. Each variant names the resource-acquisition step
/// that failed, so the caller can surface a diagnostic and abort.
#[derive(Clone, Copy, Debug, PartialEq, Eq, Structural)]
pub enum BootstrapError {
    /// Pixel-format negotiation offered no config satisfying the request.
    NoCompatibleConfig,
    /// Negotiation succeeded, yet the windowing layer handed back no window:
    /// a contract violation of the windowing layer.
    MissingWindow,
    /// The window's raw platform handle could not be obtained.
    RawHandleUnavailable,
    /// The GPU context could not be created against the negotiated config.
    ContextCreationFailed,
    /// The drawing surface could not be created from the config's display.
    SurfaceCreationFailed,
    /// The not-yet-current context could not be made current on the surface.
    ActivationFailed,
    /// The renderer could not be constructed over the context.
    RendererConstructionFailed,
    /// The renderer could not back a canvas: distinct from renderer
    /// construction itself failing.
    CanvasConstructionFailed,
    /// The embedded window wrapping the host element could not be created.
    WindowCreationFailed,
    /// The host environment has no document to look the element up in.
    HostDocumentMissing,
    /// The host document holds no element under the fixed canvas identifier.
    CanvasElementMissing,
    /// The element found under the fixed identifier is not a drawing surface.
    ElementTypeMismatch,
}

impl BootstrapError {
    /// A human-readable diagnostic naming the failed bootstrap step.
    pub fn message(&self) -> (m: &'static str)
        ensures
            self is NoCompatibleConfig ==> m@ == "pixel format negotiation found no compatible config"@,
            self is MissingWindow ==> m@ == "negotiation succeeded but no window was returned"@,
            self is RawHandleUnavailable ==> m@ == "raw window handle failed"@,
            self is ContextCreationFailed ==> m@ == "cannot create GPU context"@,
            self is SurfaceCreationFailed ==> m@ == "cannot create window surface"@,
            self is ActivationFailed ==> m@ == "cannot make GPU context current"@,
            self is RendererConstructionFailed ==> m@ == "Cannot create renderer"@,
            self is CanvasConstructionFailed ==> m@ == "Cannot create canvas"@,
            self is WindowCreationFailed ==> m@ == "cannot create window"@,
            self is HostDocumentMissing ==> m@ == "host document unavailable"@,
            self is CanvasElementMissing ==> m@ == "no canvas element in host document"@,
            self is ElementTypeMismatch ==> m@ == "host element is not a canvas element"@,
    {
        match self {
            BootstrapError::NoCompatibleConfig => "pixel format negotiation found no compatible config",
            BootstrapError::MissingWindow => "negotiation succeeded but no window was returned",
            BootstrapError::RawHandleUnavailable => "raw window handle failed",
            BootstrapError::ContextCreationFailed => "cannot create GPU context",
            BootstrapError::SurfaceCreationFailed => "cannot create window surface",
            BootstrapError::ActivationFailed => "cannot make GPU context current",
            BootstrapError::RendererConstructionFailed => "Cannot create renderer",
            BootstrapError::CanvasConstructionFailed => "Cannot create canvas",
            BootstrapError::WindowCreationFailed => "cannot create window",
            BootstrapError::HostDocumentMissing => "host document unavailable",
            BootstrapError::CanvasElementMissing => "no canvas element in host document",
            BootstrapError::ElementTypeMismatch => "host element is not a canvas element",
        }
    }
}

} // verus!
