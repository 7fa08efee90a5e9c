//! iOS-side surface handling.
//!
//! At startup the host is asked once for its render surface: an address of
//! a Metal-backed view together with the surface's resolution and scale
//! factor. An absent view (a null address) means no window can be created;
//! otherwise the surface's numbers become the one window entity's
//! resolution and scale factor.

use crate::plugin::WindowRequest;
use vstd::prelude::*;

verus! {

/// Surface info returned from the iOS host app.
///
/// The host hands over a pointer to its view and the surface's size; here
/// the pointer is kept as its address, with zero standing for the null
/// pointer, and the floating-point scale factor as its bit pattern.
#[derive(Debug, Clone, Copy, PartialEq, Eq, Structural)]
pub struct EmbeddedSurfaceInfo {
    /// Address of the host's view; zero if the host provided none.
    pub ui_view_addr: usize,
    /// Physical width of the surface in pixels.
    pub width: u32,
    /// Physical height of the surface in pixels.
    pub height: u32,
    /// Bit pattern of the host's floating-point scale factor.
    pub scale_factor_bits: u32,
}

impl EmbeddedSurfaceInfo {
    /// The window to create for this surface, or nothing when the host did
    /// not provide a valid view: then the window is never created and the
    /// window-count check at the end of startup fails.
    pub fn window_request(&self) -> (request: Option<WindowRequest>)
        ensures
            self.ui_view_addr == 0 ==> request is None,
            self.ui_view_addr != 0 ==> request == Some(
                WindowRequest {
                    width: self.width,
                    height: self.height,
                    scale_factor_bits: self.scale_factor_bits,
                },
            ),
    {
        if self.ui_view_addr == 0 {
            None
        } else {
            Some(
                WindowRequest {
                    width: self.width,
                    height: self.height,
                    scale_factor_bits: self.scale_factor_bits,
                },
            )
        }
    }
}

} // verus!
