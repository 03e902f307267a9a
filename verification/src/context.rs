use vstd::prelude::*;

use crate::error::BootstrapError;

verus! {

/// The drawable memory target backing a window, reduced to the attributes the
/// bootstrap logic reads: which display it was created from and its pixel
/// size.
#[derive(Clone, Copy, Debug, PartialEq, Eq, Structural)]
pub struct SurfaceHandle {
    pub id: u64,
    pub display_id: u64,
    pub width: u32,
    pub height: u32,
}

/// A GPU context that has been created but not yet made current. The value is
/// deliberately move-only — it has no `Clone` — and activation consumes it,
/// so a context can be activated at most once: a second activation attempt on
/// the same value is a compile-time impossibility, not a runtime race.
#[derive(Debug)]
pub struct NotCurrentContext {
    pub id: u64,
    pub display_id: u64,
}

/// A GPU context that is current on the bootstrap thread. It exists only as
/// the result of activating a [`NotCurrentContext`] against a surface, and it
/// carries the identity of that one surface for its whole lifetime: no
/// operation rebinds it.
#[derive(Clone, Copy, Debug, PartialEq, Eq, Structural)]
pub struct CurrentContext {
    pub context_id: u64,
    pub display_id: u64,
    pub surface_id: u64,
}

impl NotCurrentContext {
    /// Activate the context against a surface, consuming the not-yet-current
    /// value. `succeeded` is the outcome of the platform's activation call:
    /// when it failed, activation fails fatally; when it succeeded, the
    /// resulting current context is bound to exactly the given surface and
    /// keeps the context's identity and display.
    pub fn make_current(self, surface: &SurfaceHandle, succeeded: bool) -> (r: Result<
        CurrentContext,
        BootstrapError,
    >)
        ensures
            succeeded ==> r == Ok::<CurrentContext, BootstrapError>(
                CurrentContext {
                    context_id: self.id,
                    display_id: self.display_id,
                    surface_id: surface.id,
                },
            ),
            !succeeded ==> r == Err::<CurrentContext, BootstrapError>(
                BootstrapError::ActivationFailed,
            ),
    {
        if succeeded {
            Ok(
                CurrentContext {
                    context_id: self.id,
                    display_id: self.display_id,
                    surface_id: surface.id,
                },
            )
        } else {
            Err(BootstrapError::ActivationFailed)
        }
    }
}

impl CurrentContext {
    /// A context of this type is current by construction: it only ever arises
    /// from a successful activation, and nothing deactivates it during
    /// bootstrap.
    pub fn is_current(&self) -> (r: bool)
        ensures
            r,
    {
        true
    }
}

} // verus!
