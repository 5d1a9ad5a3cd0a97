//! The composition root: one owner for the pixel canvas, the surface
//! configuration and the dimensions of the GPU texture mirroring the
//! canvas, together with the per-frame decision logic.
//!
//! The canvas and its texture mirror are resized together, so no frame
//! can observe a mismatched pair; transient surface failures are absorbed
//! as a skipped frame, and only the loss of the GPU device itself is a
//! fatal error.

use vstd::prelude::*;

use crate::canvas::PixelCanvas;
use crate::surface::PresentMode;
use crate::surface::SurfaceConfig;
use crate::valid_dims;

verus! {

/// Configuration for initializing the window and render loop.
#[derive(Clone, Copy, Debug, PartialEq, Eq, Structural)]
pub struct Config {
    /// Initial window width in physical pixels.
    pub width: u32,
    /// Initial window height in physical pixels.
    pub height: u32,
    /// Whether the window may be resized by the user.
    pub resizeable: bool,
}

/// What acquiring the next presentable surface image reported, as the
/// frame logic sees it.
#[derive(Clone, Copy, Debug, PartialEq, Eq, Structural)]
pub enum AcquireStatus {
    /// An image was acquired with no issues.
    Ready,
    /// An image was acquired, but it no longer matches the surface
    /// configuration; the frame proceeds and the surface should be
    /// reconfigured afterwards.
    Suboptimal,
    /// Acquisition timed out; the frame is skipped and retried later.
    Timeout,
    /// The window is occluded; the frame is skipped and retried later.
    Occluded,
    /// The surface configuration is outdated; the frame is skipped and
    /// the surface reconfigured before the next attempt.
    Outdated,
    /// The surface was lost; the frame is skipped and the surface
    /// reconfigured before the next attempt.
    Lost,
    /// The GPU device itself was lost; no frame can ever succeed again.
    DeviceLost,
}

/// How a frame ended when it did not fail fatally.
#[derive(Clone, Copy, Debug, PartialEq, Eq, Structural)]
pub enum FrameOutcome {
    /// The frame was drawn and presented.
    Presented,
    /// The frame was skipped; the caller simply tries again next tick.
    Skipped,
}

/// The one unrecoverable per-frame failure.
#[derive(Clone, Copy, Debug, PartialEq, Eq, Structural)]
pub enum RenderError {
    /// The GPU device was lost; the render context cannot continue.
    DeviceLost,
}

/// The frame policy: transient surface conditions are absorbed as a
/// skipped or still-presented frame, device loss is fatal.
pub open spec fn spec_frame_result(acquire: AcquireStatus) -> Result<FrameOutcome, RenderError> {
    match acquire {
        AcquireStatus::Ready => Ok(FrameOutcome::Presented),
        AcquireStatus::Suboptimal => Ok(FrameOutcome::Presented),
        AcquireStatus::Timeout => Ok(FrameOutcome::Skipped),
        AcquireStatus::Occluded => Ok(FrameOutcome::Skipped),
        AcquireStatus::Outdated => Ok(FrameOutcome::Skipped),
        AcquireStatus::Lost => Ok(FrameOutcome::Skipped),
        AcquireStatus::DeviceLost => Err(RenderError::DeviceLost),
    }
}

/// Whether the surface must be reconfigured before the next frame is
/// attempted, given what acquisition reported.
pub open spec fn spec_reconfigure_after(acquire: AcquireStatus) -> bool {
    match acquire {
        AcquireStatus::Suboptimal => true,
        AcquireStatus::Outdated => true,
        AcquireStatus::Lost => true,
        _ => false,
    }
}

/// Where a frame stands while it is executed: the canvas is uploaded
/// into the texture, a surface image is acquired, the quad is drawn and
/// the image presented — or the frame ends skipped when acquisition
/// fails recoverably.
#[derive(Clone, Copy, Debug, PartialEq, Eq, Structural)]
pub enum FrameState {
    /// Nothing of this frame has happened yet.
    Idle,
    /// The canvas buffer was copied into the GPU texture.
    TextureWritten,
    /// A presentable surface image was acquired.
    FrameAcquired,
    /// The draw pass over the quad was recorded.
    Drawn,
    /// The frame was submitted and presented; terminal.
    Presented,
    /// The frame was abandoned on a recoverable surface failure; terminal.
    Skipped,
}

/// What happened next while executing a frame.
#[derive(Clone, Copy, Debug, PartialEq, Eq, Structural)]
pub enum FrameEvent {
    /// The canvas-to-texture upload completed.
    UploadDone,
    /// Surface-image acquisition handed back a presentable image.
    Acquired,
    /// Surface-image acquisition failed with a recoverable condition.
    AcquireFailedRecoverable,
    /// The draw pass was recorded.
    DrawDone,
    /// The submitted frame was presented.
    PresentDone,
}

/// How one frame advances: upload, then acquire, then draw, then
/// present; a recoverable acquisition failure abandons the frame. Any
/// other event leaves the state where it was.
pub open spec fn spec_frame_step(s: FrameState, e: FrameEvent) -> FrameState {
    match (s, e) {
        (FrameState::Idle, FrameEvent::UploadDone) => FrameState::TextureWritten,
        (FrameState::TextureWritten, FrameEvent::Acquired) => FrameState::FrameAcquired,
        (FrameState::TextureWritten, FrameEvent::AcquireFailedRecoverable) => FrameState::Skipped,
        (FrameState::FrameAcquired, FrameEvent::DrawDone) => FrameState::Drawn,
        (FrameState::Drawn, FrameEvent::PresentDone) => FrameState::Presented,
        (_, _) => s,
    }
}

/// Advances the per-frame state machine by one observed event.
pub fn frame_step(s: FrameState, e: FrameEvent) -> (r: FrameState)
    ensures
        r == spec_frame_step(s, e),
{
    match (s, e) {
        (FrameState::Idle, FrameEvent::UploadDone) => FrameState::TextureWritten,
        (FrameState::TextureWritten, FrameEvent::Acquired) => FrameState::FrameAcquired,
        (FrameState::TextureWritten, FrameEvent::AcquireFailedRecoverable) => FrameState::Skipped,
        (FrameState::FrameAcquired, FrameEvent::DrawDone) => FrameState::Drawn,
        (FrameState::Drawn, FrameEvent::PresentDone) => FrameState::Presented,
        (_, _) => s,
    }
}

/// A full frame runs upload, acquire, draw, present and ends
/// `Presented`; a frame whose acquisition fails recoverably ends
/// `Skipped`; and both ends are terminal — no event leaves them.
pub proof fn lemma_frame_paths(s: FrameState, e: FrameEvent)
    ensures
        spec_frame_step(
            spec_frame_step(
                spec_frame_step(
                    spec_frame_step(FrameState::Idle, FrameEvent::UploadDone),
                    FrameEvent::Acquired,
                ),
                FrameEvent::DrawDone,
            ),
            FrameEvent::PresentDone,
        ) == FrameState::Presented,
        spec_frame_step(
            spec_frame_step(FrameState::Idle, FrameEvent::UploadDone),
            FrameEvent::AcquireFailedRecoverable,
        ) == FrameState::Skipped,
        s == FrameState::Presented || s == FrameState::Skipped ==> spec_frame_step(s, e) == s,
{
}

/// Owns the canvas, the surface configuration and the bookkeeping that
/// keeps the GPU texture in lockstep with the canvas.
pub struct RenderContext {
    /// The CPU-side pixel buffer, the single source of truth for content.
    pub canvas: PixelCanvas,
    /// The configuration the presentation surface was configured with.
    pub surface_config: SurfaceConfig,
    /// Width of the GPU texture mirroring the canvas.
    pub texture_width: u32,
    /// Height of the GPU texture mirroring the canvas.
    pub texture_height: u32,
    /// Whether the surface must be reconfigured before the next frame.
    pub needs_reconfigure: bool,
}

impl RenderContext {
    /// The canvas buffer matches its dimensions, the surface has a
    /// non-zero size, and the texture mirror matches the canvas exactly.
    pub open spec fn wf(self) -> bool {
        &&& self.canvas.wf()
        &&& self.surface_config.wf()
        &&& self.texture_width == self.canvas.width
        &&& self.texture_height == self.canvas.height
    }

    /// Builds the context: a zeroed canvas, a window-sized surface
    /// configuration and a texture mirror of the canvas's size. Returns
    /// `None` when the canvas buffer would not fit in addressable memory.
    pub fn new(
        canvas_width: u32,
        canvas_height: u32,
        window_width: u32,
        window_height: u32,
        present_mode: PresentMode,
        srgb: bool,
    ) -> (r: Option<RenderContext>)
        requires
            window_width > 0,
            window_height > 0,
        ensures
            r is Some <==> valid_dims(canvas_width, canvas_height),
            r matches Some(ctx) ==> {
                &&& ctx.wf()
                &&& ctx.canvas.width == canvas_width
                &&& ctx.canvas.height == canvas_height
                &&& ctx.canvas.pixels@.len() == canvas_width as int * canvas_height as int * 4
                &&& forall|k: int|
                    0 <= k < ctx.canvas.pixels@.len() ==> ctx.canvas.pixels@[k] == 0u8
                &&& ctx.surface_config == (SurfaceConfig {
                    width: window_width,
                    height: window_height,
                    present_mode,
                    srgb,
                })
                &&& !ctx.needs_reconfigure
            },
    {
        let canvas = match PixelCanvas::new(canvas_width, canvas_height) {
            Some(c) => c,
            None => {
                return None;
            },
        };
        let surface_config = SurfaceConfig::new(window_width, window_height, present_mode, srgb);
        Some(
            RenderContext {
                canvas,
                surface_config,
                texture_width: canvas_width,
                texture_height: canvas_height,
                needs_reconfigure: false,
            },
        )
    }

    /// Resizes the canvas and the texture mirror together, atomically
    /// from the caller's point of view: no frame can observe a mismatched
    /// pair. The new canvas is zeroed; returns `false` (changing nothing)
    /// when the new buffer would not fit in addressable memory.
    pub fn resize_canvas(&mut self, width: u32, height: u32) -> (ok: bool)
        requires
            old(self).wf(),
        ensures
            final(self).wf(),
            ok <==> valid_dims(width, height),
            ok ==> {
                &&& final(self).canvas.width == width
                &&& final(self).canvas.height == height
                &&& forall|k: int|
                    0 <= k < final(self).canvas.pixels@.len()
                        ==> final(self).canvas.pixels@[k] == 0u8
                &&& final(self).texture_width == width
                &&& final(self).texture_height == height
            },
            !ok ==> {
                &&& final(self).canvas.width == old(self).canvas.width
                &&& final(self).canvas.height == old(self).canvas.height
                &&& final(self).canvas.pixels@ == old(self).canvas.pixels@
                &&& final(self).texture_width == old(self).texture_width
                &&& final(self).texture_height == old(self).texture_height
            },
            final(self).surface_config == old(self).surface_config,
            final(self).needs_reconfigure == old(self).needs_reconfigure,
    {
        let ok = self.canvas.resize(width, height);
        if ok {
            self.texture_width = width;
            self.texture_height = height;
        }
        ok
    }

    /// Forwards a window resize to the surface configuration; a request
    /// with a zero dimension is ignored. Returns whether the surface must
    /// be reconfigured.
    pub fn resize_window(&mut self, width: u32, height: u32) -> (changed: bool)
        ensures
            final(self).surface_config == old(self).surface_config.spec_resize(width, height),
            changed <==> (width > 0 && height > 0),
            final(self).canvas.width == old(self).canvas.width,
            final(self).canvas.height == old(self).canvas.height,
            final(self).canvas.pixels@ == old(self).canvas.pixels@,
            final(self).texture_width == old(self).texture_width,
            final(self).texture_height == old(self).texture_height,
            final(self).needs_reconfigure == old(self).needs_reconfigure,
            old(self).wf() ==> final(self).wf(),
    {
        self.surface_config.resize(width, height)
    }

    /// Switches the presentation mode; it takes effect on the render call
    /// immediately following it, once the caller reconfigures the surface.
    pub fn set_present_mode(&mut self, mode: PresentMode)
        ensures
            final(self).surface_config == old(self).surface_config.spec_set_present_mode(mode),
            final(self).canvas.width == old(self).canvas.width,
            final(self).canvas.height == old(self).canvas.height,
            final(self).canvas.pixels@ == old(self).canvas.pixels@,
            final(self).texture_width == old(self).texture_width,
            final(self).texture_height == old(self).texture_height,
            final(self).needs_reconfigure == old(self).needs_reconfigure,
            old(self).wf() ==> final(self).wf(),
    {
        self.surface_config.set_present_mode(mode)
    }

    /// Row stride in bytes for the row-pitch-aware upload of the canvas
    /// into the GPU texture: four bytes per pixel, no padding. `None`
    /// when the stride would not fit the GPU's 32-bit layout field.
    pub fn bytes_per_row(&self) -> (r: Option<u32>)
        ensures
            match r {
                Some(v) => v == 4 * self.canvas.width,
                None => 4 * self.canvas.width > u32::MAX,
            },
    {
        4u32.checked_mul(self.canvas.width)
    }

    /// Decides one frame after the caller uploaded the canvas and tried
    /// to acquire a surface image. Transient conditions skip the frame
    /// (recording whether the surface must be reconfigured first) or
    /// present it regardless; device loss is the one fatal error. The
    /// canvas, the surface configuration and the texture mirror are left
    /// untouched.
    pub fn render(&mut self, acquire: AcquireStatus) -> (r: Result<FrameOutcome, RenderError>)
        requires
            old(self).wf(),
        ensures
            final(self).wf(),
            r == spec_frame_result(acquire),
            final(self).needs_reconfigure == spec_reconfigure_after(acquire),
            final(self).canvas.width == old(self).canvas.width,
            final(self).canvas.height == old(self).canvas.height,
            final(self).canvas.pixels@ == old(self).canvas.pixels@,
            final(self).surface_config == old(self).surface_config,
            final(self).texture_width == old(self).texture_width,
            final(self).texture_height == old(self).texture_height,
    {
        match acquire {
            AcquireStatus::Ready => {
                self.needs_reconfigure = false;
                Ok(FrameOutcome::Presented)
            },
            AcquireStatus::Suboptimal => {
                self.needs_reconfigure = true;
                Ok(FrameOutcome::Presented)
            },
            AcquireStatus::Timeout => {
                self.needs_reconfigure = false;
                Ok(FrameOutcome::Skipped)
            },
            AcquireStatus::Occluded => {
                self.needs_reconfigure = false;
                Ok(FrameOutcome::Skipped)
            },
            AcquireStatus::Outdated => {
                self.needs_reconfigure = true;
                Ok(FrameOutcome::Skipped)
            },
            AcquireStatus::Lost => {
                self.needs_reconfigure = true;
                Ok(FrameOutcome::Skipped)
            },
            AcquireStatus::DeviceLost => {
                self.needs_reconfigure = false;
                Err(RenderError::DeviceLost)
            },
        }
    }
}

/// Frames are only ever skipped or presented for every status but device
/// loss, which alone is fatal: present-mode switches, resizes and other
/// reconfigurations can never produce a fatal frame.
pub proof fn lemma_only_device_loss_is_fatal(acquire: AcquireStatus)
    ensures
        spec_frame_result(acquire) is Err <==> acquire == AcquireStatus::DeviceLost,
{
}

} // verus!
