use vstd::prelude::*;

use crate::canvas::CanvasModel;
use crate::context::CurrentContext;
use crate::context::NotCurrentContext;
use crate::context::SurfaceHandle;
use crate::error::BootstrapError;
use crate::pixel_format::PixelFormatConfig;
use crate::pixel_format::PixelFormatRequest;
use crate::pixel_format::REQUIRED_ALPHA_BITS;
use crate::pixel_format::config_satisfies;
use crate::pixel_format::is_first_satisfying;
use crate::pixel_format::select_config;
use crate::window::INITIAL_LOGICAL_HEIGHT;
use crate::window::INITIAL_LOGICAL_WIDTH;
use crate::window::WindowInfo;
use crate::window::WindowRequest;

verus! {

// The native bootstrap is a one-shot forward state machine:
//
//   Uninitialized -> ConfigNegotiated -> WindowCreated -> HandleAcquired
//     -> ContextBuilt -> SurfaceCreated -> ContextCurrent -> RendererReady
//     -> CanvasReady
//
// Every transition consumes the current state by move, so there are no
// backward edges and no step can run twice; any step's failure halts the
// machine in place by returning the fatal error for that step. The caller
// performs the platform call behind each step and hands its outcome in as a
// plain value.

/// The native bootstrap before any negotiation has happened: it holds the
/// fixed pixel-format request and the fixed window description.
pub struct NativeBootstrap {
    pub request: PixelFormatRequest,
    pub window_request: WindowRequest,
}

/// Negotiation accepted a config; no window has been attached yet.
pub struct ConfigNegotiated {
    pub window_request: WindowRequest,
    pub config: PixelFormatConfig,
}

/// The jointly created window has been attached to the negotiated config.
pub struct WindowCreated {
    pub window_request: WindowRequest,
    pub config: PixelFormatConfig,
    pub window: WindowInfo,
}

/// The window's raw platform handle has been obtained.
pub struct HandleAcquired {
    pub window_request: WindowRequest,
    pub config: PixelFormatConfig,
    pub window: WindowInfo,
    pub raw_handle: u64,
}

/// A not-yet-current GPU context has been created against the config.
pub struct ContextBuilt {
    pub window_request: WindowRequest,
    pub config: PixelFormatConfig,
    pub window: WindowInfo,
    pub raw_handle: u64,
    pub context: NotCurrentContext,
}

/// The drawing surface has been created from the config's display.
pub struct SurfaceCreated {
    pub config: PixelFormatConfig,
    pub window: WindowInfo,
    pub context: NotCurrentContext,
    pub surface: SurfaceHandle,
}

/// The context has been activated against the surface and is now current.
pub struct ContextCurrent {
    pub window: WindowInfo,
    pub current: CurrentContext,
    pub surface: SurfaceHandle,
}

/// The renderer has been constructed by resolving the display's GPU function
/// pointers.
pub struct RendererReady {
    pub window: WindowInfo,
    pub current: CurrentContext,
    pub surface: SurfaceHandle,
}

/// The canvas has been constructed over the renderer and sized to the window:
/// everything the coordinator assembles into the handler on a native target.
pub struct NativeCanvasReady {
    pub window: WindowInfo,
    pub current: CurrentContext,
    pub surface: SurfaceHandle,
    pub canvas: CanvasModel,
}

impl WindowCreated {
    /// Window, config and every resource derived from them reference the same
    /// underlying platform display: a single negotiation produces all of
    /// them, so mixing displays is prevented by construction.
    pub open spec fn wf(self) -> bool {
        self.window.display_id == self.config.display_id
    }
}

impl HandleAcquired {
    pub open spec fn wf(self) -> bool {
        self.window.display_id == self.config.display_id
    }
}

impl ContextBuilt {
    pub open spec fn wf(self) -> bool {
        &&& self.window.display_id == self.config.display_id
        &&& self.context.display_id == self.config.display_id
    }
}

impl SurfaceCreated {
    pub open spec fn wf(self) -> bool {
        &&& self.window.display_id == self.config.display_id
        &&& self.context.display_id == self.config.display_id
        &&& self.surface.display_id == self.config.display_id
    }
}

impl ContextCurrent {
    /// The current context is bound to exactly the surface created for this
    /// window, and context, surface and window share one display.
    pub open spec fn wf(self) -> bool {
        &&& self.current.surface_id == self.surface.id
        &&& self.current.display_id == self.window.display_id
        &&& self.surface.display_id == self.window.display_id
    }
}

impl RendererReady {
    pub open spec fn wf(self) -> bool {
        &&& self.current.surface_id == self.surface.id
        &&& self.current.display_id == self.window.display_id
        &&& self.surface.display_id == self.window.display_id
    }
}

impl NativeCanvasReady {
    /// Ready for assembly: the context is bound to this window's surface on
    /// this window's display, and the canvas was sized exactly to the
    /// window's reported physical size and scale factor.
    pub open spec fn wf(self) -> bool {
        &&& self.current.surface_id == self.surface.id
        &&& self.current.display_id == self.window.display_id
        &&& self.surface.display_id == self.window.display_id
        &&& self.canvas.sized
        &&& self.canvas.width == self.window.physical_width
        &&& self.canvas.height == self.window.physical_height
        &&& self.canvas.scale_milli == self.window.scale_milli
    }
}

impl NativeBootstrap {
    /// Begin a native bootstrap with the fixed parameters: a pixel format
    /// with at least eight alpha bits, and a window of 1000 by 600 logical
    /// units.
    pub fn start() -> (s: NativeBootstrap)
        ensures
            s.request == (PixelFormatRequest { alpha_bits: REQUIRED_ALPHA_BITS }),
            s.window_request == (WindowRequest {
                logical_width: INITIAL_LOGICAL_WIDTH,
                logical_height: INITIAL_LOGICAL_HEIGHT,
            }),
    {
        NativeBootstrap {
            request: PixelFormatRequest { alpha_bits: REQUIRED_ALPHA_BITS },
            window_request: WindowRequest {
                logical_width: INITIAL_LOGICAL_WIDTH,
                logical_height: INITIAL_LOGICAL_HEIGHT,
            },
        }
    }

    /// Accept the first offered config that satisfies the request. Fails with
    /// `NoCompatibleConfig` exactly when no offered config satisfies it: the
    /// bootstrap then halts before any window state exists.
    pub fn negotiate(self, offered: &Vec<PixelFormatConfig>) -> (r: Result<
        ConfigNegotiated,
        BootstrapError,
    >)
        ensures
            r is Ok <==> exists|j: int|
                0 <= j < offered@.len() && config_satisfies(#[trigger] offered@[j], self.request),
            r matches Ok(st) ==> {
                &&& st.window_request == self.window_request
                &&& exists|i: int|
                    is_first_satisfying(self.request, offered@, i) && st.config == offered@[i]
            },
            r is Err ==> r == Err::<ConfigNegotiated, BootstrapError>(
                BootstrapError::NoCompatibleConfig,
            ),
    {
        match select_config(&self.request, offered) {
            Ok(i) => Ok(
                ConfigNegotiated { window_request: self.window_request, config: offered[i] },
            ),
            Err(e) => Err(e),
        }
    }
}

impl ConfigNegotiated {
    /// Attach the window the windowing layer created jointly with the
    /// negotiation. Negotiation and window creation come from one call, so
    /// the window lives on the config's display. Fails with `MissingWindow`
    /// exactly when no window was returned despite the successful
    /// negotiation.
    pub fn attach_window(self, window: Option<WindowInfo>) -> (r: Result<
        WindowCreated,
        BootstrapError,
    >)
        requires
            window matches Some(w) ==> w.display_id == self.config.display_id,
        ensures
            window is None ==> r == Err::<WindowCreated, BootstrapError>(
                BootstrapError::MissingWindow,
            ),
            window matches Some(w) ==> r == Ok::<WindowCreated, BootstrapError>(
                WindowCreated {
                    window_request: self.window_request,
                    config: self.config,
                    window: w,
                },
            ),
            r matches Ok(st) ==> st.wf(),
    {
        match window {
            Some(w) => Ok(
                WindowCreated {
                    window_request: self.window_request,
                    config: self.config,
                    window: w,
                },
            ),
            None => Err(BootstrapError::MissingWindow),
        }
    }
}

impl WindowCreated {
    /// Record the window's raw platform handle, the first order-significant
    /// step of context building. Fails with `RawHandleUnavailable` exactly
    /// when the handle could not be obtained.
    pub fn acquire_handle(self, raw_handle: Option<u64>) -> (r: Result<
        HandleAcquired,
        BootstrapError,
    >)
        requires
            self.wf(),
        ensures
            raw_handle is None ==> r == Err::<HandleAcquired, BootstrapError>(
                BootstrapError::RawHandleUnavailable,
            ),
            raw_handle matches Some(h) ==> r == Ok::<HandleAcquired, BootstrapError>(
                HandleAcquired {
                    window_request: self.window_request,
                    config: self.config,
                    window: self.window,
                    raw_handle: h,
                },
            ),
            r matches Ok(st) ==> st.wf(),
    {
        match raw_handle {
            Some(h) => Ok(
                HandleAcquired {
                    window_request: self.window_request,
                    config: self.config,
                    window: self.window,
                    raw_handle: h,
                },
            ),
            None => Err(BootstrapError::RawHandleUnavailable),
        }
    }
}

impl HandleAcquired {
    /// Attach the not-yet-current GPU context created against the negotiated
    /// config, and so against its display. Fails with `ContextCreationFailed`
    /// exactly when the creation call produced no context.
    pub fn build_context(self, context: Option<NotCurrentContext>) -> (r: Result<
        ContextBuilt,
        BootstrapError,
    >)
        requires
            self.wf(),
            context matches Some(c) ==> c.display_id == self.config.display_id,
        ensures
            context is None ==> r == Err::<ContextBuilt, BootstrapError>(
                BootstrapError::ContextCreationFailed,
            ),
            context matches Some(c) ==> r == Ok::<ContextBuilt, BootstrapError>(
                ContextBuilt {
                    window_request: self.window_request,
                    config: self.config,
                    window: self.window,
                    raw_handle: self.raw_handle,
                    context: c,
                },
            ),
            r matches Ok(st) ==> st.wf(),
    {
        match context {
            Some(c) => Ok(
                ContextBuilt {
                    window_request: self.window_request,
                    config: self.config,
                    window: self.window,
                    raw_handle: self.raw_handle,
                    context: c,
                },
            ),
            None => Err(BootstrapError::ContextCreationFailed),
        }
    }
}

impl ContextBuilt {
    /// Attach the surface created from the config's display, with attributes
    /// built from the raw window handle and the fixed initial size. Fails
    /// with `SurfaceCreationFailed` exactly when the creation call produced
    /// no surface.
    pub fn create_surface(self, surface: Option<SurfaceHandle>) -> (r: Result<
        SurfaceCreated,
        BootstrapError,
    >)
        requires
            self.wf(),
            surface matches Some(s) ==> s.display_id == self.config.display_id
                && s.width == self.window_request.logical_width
                && s.height == self.window_request.logical_height,
        ensures
            surface is None ==> r == Err::<SurfaceCreated, BootstrapError>(
                BootstrapError::SurfaceCreationFailed,
            ),
            surface matches Some(s) ==> r == Ok::<SurfaceCreated, BootstrapError>(
                SurfaceCreated {
                    config: self.config,
                    window: self.window,
                    context: self.context,
                    surface: s,
                },
            ),
            r matches Ok(st) ==> st.wf(),
    {
        let ContextBuilt { window_request: _, config, window, raw_handle: _, context } = self;
        match surface {
            Some(s) => Ok(SurfaceCreated { config, window, context, surface: s }),
            None => Err(BootstrapError::SurfaceCreationFailed),
        }
    }
}

impl SurfaceCreated {
    /// Activate the context against the surface. The not-yet-current context
    /// is consumed by this step exactly once; on success the machine holds a
    /// current context bound to this surface. `succeeded` is the outcome of
    /// the platform's activation call; when it failed, the step fails with
    /// `ActivationFailed`.
    pub fn activate(self, succeeded: bool) -> (r: Result<ContextCurrent, BootstrapError>)
        requires
            self.wf(),
        ensures
            !succeeded ==> r == Err::<ContextCurrent, BootstrapError>(
                BootstrapError::ActivationFailed,
            ),
            succeeded ==> r == Ok::<ContextCurrent, BootstrapError>(
                ContextCurrent {
                    window: self.window,
                    current: CurrentContext {
                        context_id: self.context.id,
                        display_id: self.context.display_id,
                        surface_id: self.surface.id,
                    },
                    surface: self.surface,
                },
            ),
            r matches Ok(st) ==> st.wf() && st.current.surface_id == self.surface.id,
    {
        let SurfaceCreated { config: _, window, context, surface } = self;
        match context.make_current(&surface, succeeded) {
            Ok(current) => Ok(ContextCurrent { window, current, surface }),
            Err(e) => Err(e),
        }
    }
}

impl ContextCurrent {
    /// Record the outcome of constructing the renderer through the display's
    /// address-resolution facility. Fails with `RendererConstructionFailed`
    /// exactly when construction failed; the already-created context and
    /// surface are discarded together with the machine in that case.
    pub fn attach_renderer(self, renderer_created: bool) -> (r: Result<
        RendererReady,
        BootstrapError,
    >)
        requires
            self.wf(),
        ensures
            !renderer_created ==> r == Err::<RendererReady, BootstrapError>(
                BootstrapError::RendererConstructionFailed,
            ),
            renderer_created ==> r == Ok::<RendererReady, BootstrapError>(
                RendererReady {
                    window: self.window,
                    current: self.current,
                    surface: self.surface,
                },
            ),
            r matches Ok(st) ==> st.wf(),
    {
        if renderer_created {
            Ok(RendererReady { window: self.window, current: self.current, surface: self.surface })
        } else {
            Err(BootstrapError::RendererConstructionFailed)
        }
    }
}

impl RendererReady {
    /// Construct the canvas over the renderer and set its working size to the
    /// window's reported physical size and scale factor — the one place the
    /// canvas and the window are made to agree. `canvas_backed` is the
    /// outcome of the canvas-construction call; when it failed, the step
    /// fails with `CanvasConstructionFailed`.
    pub fn build_canvas(self, canvas_backed: bool) -> (r: Result<
        NativeCanvasReady,
        BootstrapError,
    >)
        requires
            self.wf(),
        ensures
            !canvas_backed ==> r == Err::<NativeCanvasReady, BootstrapError>(
                BootstrapError::CanvasConstructionFailed,
            ),
            canvas_backed ==> r == Ok::<NativeCanvasReady, BootstrapError>(
                NativeCanvasReady {
                    window: self.window,
                    current: self.current,
                    surface: self.surface,
                    canvas: CanvasModel {
                        width: self.window.physical_width,
                        height: self.window.physical_height,
                        scale_milli: self.window.scale_milli,
                        sized: true,
                    },
                },
            ),
            r matches Ok(st) ==> st.wf(),
    {
        match CanvasModel::new(canvas_backed) {
            Ok(mut canvas) => {
                canvas.set_size(
                    self.window.physical_width,
                    self.window.physical_height,
                    self.window.scale_milli,
                );
                Ok(
                    NativeCanvasReady {
                        window: self.window,
                        current: self.current,
                        surface: self.surface,
                        canvas,
                    },
                )
            },
            Err(e) => Err(e),
        }
    }
}

} // verus!
