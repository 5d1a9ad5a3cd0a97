//! A minimal pixel-canvas rendering core: a CPU-addressable grid of RGBA
//! pixels together with the bookkeeping needed to mirror it onto a
//! GPU-backed surface (surface configuration, quad geometry, and the
//! per-frame decision logic).

use vstd::prelude::*;

pub mod canvas;
pub mod context;
pub mod formats;
pub mod geometry;
pub mod surface;

pub use canvas::PixelCanvas;
pub use canvas::DEFAULT_CANVAS_HEIGHT;
pub use canvas::DEFAULT_CANVAS_WIDTH;
pub use context::frame_step;
pub use context::AcquireStatus;
pub use context::Config;
pub use context::FrameEvent;
pub use context::FrameOutcome;
pub use context::FrameState;
pub use context::RenderContext;
pub use context::RenderError;
pub use surface::PresentMode;
pub use surface::SurfaceConfig;

verus! {

/// True when a `width x height` canvas of four-byte pixels fits in
/// addressable memory, so its buffer length can be held in a `usize`.
pub open spec fn valid_dims(width: u32, height: u32) -> bool {
    width as int * height as int * 4 <= usize::MAX as int
}

} // verus!
