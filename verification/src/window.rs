use vstd::prelude::*;

verus! {

/// Fixed initial window width in logical units, native targets only.
pub const INITIAL_LOGICAL_WIDTH: u32 = 1000;

/// Fixed initial window height in logical units, native targets only.
pub const INITIAL_LOGICAL_HEIGHT: u32 = 600;

/// The fixed window title used on native targets.
pub fn window_title() -> (t: &'static str)
    ensures
        t@ == "graph_rs"@,
{
    "graph_rs"
}

/// The window description the native provisioner hands to the windowing
/// layer: a fixed initial size in logical units (the title is fixed as well,
/// see [`window_title`]).
#[derive(Clone, Copy, Debug, PartialEq, Eq, Structural)]
pub struct WindowRequest {
    pub logical_width: u32,
    pub logical_height: u32,
}

/// The attributes of a created window that the bootstrap logic reads: the
/// display it lives on, its physical pixel size, its scale factor (in
/// thousandths, so a factor of one is 1000), whether input focus has been
/// requested for it, and — on the embedded target — the host element it
/// wraps.
#[derive(Clone, Copy, Debug)]
pub struct WindowInfo {
    pub id: u64,
    pub display_id: u64,
    pub physical_width: u32,
    pub physical_height: u32,
    pub scale_milli: u32,
    pub focus_requested: bool,
    pub host_element_id: Option<u64>,
}

impl WindowInfo {
    /// Record that OS-level input focus was requested for this window; every
    /// other attribute is left as it was.
    pub fn request_focus(&mut self)
        ensures
            *final(self) == (WindowInfo { focus_requested: true, ..*old(self) }),
    {
        self.focus_requested = true;
    }

    /// The window's width in logical units: its physical width divided by the
    /// scale factor.
    pub fn logical_width(&self) -> (r: u64)
        requires
            self.scale_milli > 0,
        ensures
            r == self.physical_width * 1000 / self.scale_milli as int,
    {
        (self.physical_width as u64 * 1000) / (self.scale_milli as u64)
    }

    /// The window's height in logical units: its physical height divided by
    /// the scale factor.
    pub fn logical_height(&self) -> (r: u64)
        requires
            self.scale_milli > 0,
        ensures
            r == self.physical_height * 1000 / self.scale_milli as int,
    {
        (self.physical_height as u64 * 1000) / (self.scale_milli as u64)
    }
}

} // verus!
