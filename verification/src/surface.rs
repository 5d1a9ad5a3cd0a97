//! The negotiated surface configuration: the size, presentation mode and
//! format choice that the window-bound presentation surface is configured
//! with. The configuration's width and height track the window's physical
//! size; zero-area resize requests (a minimized window) are ignored.

use vstd::prelude::*;

verus! {

/// The policy governing how and when a rendered frame becomes visible.
#[derive(Clone, Copy, Debug, PartialEq, Eq, Structural)]
pub enum PresentMode {
    /// The first supported vsync-on mode.
    AutoVsync,
    /// The first supported vsync-off mode.
    AutoNoVsync,
    /// Frames queued and presented at vertical blanks; no tearing.
    Fifo,
    /// Like `Fifo`, but a late frame is shown as soon as it arrives.
    FifoRelaxed,
    /// Frames replace the front buffer immediately; tearing possible.
    Immediate,
    /// A single-frame queue whose entry is replaced by newer frames.
    Mailbox,
}

/// The surface configuration the presentation surface was last configured
/// with: window-sized, with a presentation mode and the negotiated format
/// (recorded here by whether it is sRGB-capable).
#[derive(Clone, Copy, Debug, PartialEq, Eq, Structural)]
pub struct SurfaceConfig {
    /// Width in physical pixels; equals the window's current width.
    pub width: u32,
    /// Height in physical pixels; equals the window's current height.
    pub height: u32,
    /// The presentation mode frames are displayed with.
    pub present_mode: PresentMode,
    /// Whether the negotiated surface format is sRGB-capable.
    pub srgb: bool,
}

impl SurfaceConfig {
    /// A configured surface never has a zero-area size.
    pub open spec fn wf(self) -> bool {
        self.width > 0 && self.height > 0
    }

    /// The configuration after a window-resize request: updated for a
    /// non-zero size, untouched when either dimension is zero.
    pub open spec fn spec_resize(self, width: u32, height: u32) -> SurfaceConfig {
        if width > 0 && height > 0 {
            SurfaceConfig { width, height, ..self }
        } else {
            self
        }
    }

    /// The configuration with its presentation mode replaced.
    pub open spec fn spec_set_present_mode(self, mode: PresentMode) -> SurfaceConfig {
        SurfaceConfig { present_mode: mode, ..self }
    }

    /// Builds the initial configuration from the window's physical size,
    /// the desired presentation mode and the negotiated format.
    pub fn new(width: u32, height: u32, present_mode: PresentMode, srgb: bool) -> (c:
        SurfaceConfig)
        requires
            width > 0,
            height > 0,
        ensures
            c == (SurfaceConfig { width, height, present_mode, srgb }),
            c.wf(),
    {
        SurfaceConfig { width, height, present_mode, srgb }
    }

    /// Applies a window resize. A request with a zero dimension (window
    /// minimized) leaves the configuration unchanged; the result says
    /// whether the surface must be reconfigured.
    pub fn resize(&mut self, width: u32, height: u32) -> (changed: bool)
        ensures
            *final(self) == old(self).spec_resize(width, height),
            changed <==> (width > 0 && height > 0),
            old(self).wf() ==> final(self).wf(),
    {
        if width > 0 && height > 0 {
            self.width = width;
            self.height = height;
            true
        } else {
            false
        }
    }

    /// Replaces the presentation mode; it takes effect from the next
    /// acquired frame, once the surface is reconfigured.
    pub fn set_present_mode(&mut self, mode: PresentMode)
        ensures
            *final(self) == old(self).spec_set_present_mode(mode),
            final(self).present_mode == mode,
            old(self).wf() ==> final(self).wf(),
    {
        self.present_mode = mode;
    }
}

/// A resize request with a zero width or height leaves the previous
/// configuration — size, mode and format — entirely unchanged.
pub proof fn lemma_resize_zero_noop(c: SurfaceConfig, width: u32, height: u32)
    requires
        width == 0 || height == 0,
    ensures
        c.spec_resize(width, height) == c,
{
}

/// Present-mode switches always succeed, keep the configuration
/// well-formed and touch nothing but the mode; of any sequence of
/// switches, the last one is in effect.
pub proof fn lemma_present_mode_switches(c: SurfaceConfig, m1: PresentMode, m2: PresentMode)
    ensures
        c.spec_set_present_mode(m1).spec_set_present_mode(m2) == c.spec_set_present_mode(m2),
        c.spec_set_present_mode(m1).present_mode == m1,
        c.spec_set_present_mode(m1).width == c.width,
        c.spec_set_present_mode(m1).height == c.height,
        c.spec_set_present_mode(m1).srgb == c.srgb,
        c.wf() ==> c.spec_set_present_mode(m1).wf(),
{
}

} // verus!
