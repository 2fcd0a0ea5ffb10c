//! What all backends share: the error taxonomy of a reply that could not
//! be used, the externally supplied display geometry, and the stacking
//! rectangle computed from it.

use vstd::prelude::*;

verus! {

/// Why a backend reply yielded no result.  Failures of the control
/// utilities themselves (a non-zero exit, a missing tool) are observed by
/// the front end that runs them; these are the faults visible in the
/// reply text alone.
#[derive(Clone, Copy, Debug, PartialEq, Eq, Structural)]
pub enum BackendError {
    /// The reply was not a well-formed document of the expected shape.
    MalformedReply,
    /// No window currently holds focus.
    NoActiveWindow,
}

/// Externally supplied display geometry: the screen, the width one
/// application window should occupy, and the height reserved for a panel.
#[derive(Clone, Copy, Debug, PartialEq, Eq, Structural)]
pub struct DisplayConfig {
    pub display_width: u32,
    pub display_height: u32,
    pub eve_width: u32,
    pub panel_height: u32,
}

impl DisplayConfig {
    /// The window must fit the screen and the panel must fit its height.
    pub open spec fn wf(self) -> bool {
        self.eve_width <= self.display_width && self.panel_height <= self.display_height
    }
}

/// The stacking rectangle: every matched window is placed horizontally
/// centered at the top of the screen, as wide as configured and as tall
/// as the screen less the panel.  Returned as `(x, y, width, height)`.
pub fn stack_geometry(cfg: &DisplayConfig) -> (r: (u32, u32, u32, u32))
    requires
        cfg.wf(),
    ensures
        r.0 == (cfg.display_width - cfg.eve_width) / 2,
        r.1 == 0,
        r.2 == cfg.eve_width,
        r.3 == cfg.display_height - cfg.panel_height,
{
    let x = (cfg.display_width - cfg.eve_width) / 2;
    let h = cfg.display_height - cfg.panel_height;
    (x, 0, cfg.eve_width, h)
}

} // verus!
