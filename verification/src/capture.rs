//! The window capture pipeline.
//!
//! [`WindowCapture`] sequences the OS calls that render a window into an
//! off-screen bitmap and extract its pixels: acquire the window's screen
//! device context, resolve the capture rectangle, create a compatible device
//! context and bitmap, render (by window-print or region-copy), optionally
//! re-blit a sub-rectangle into a second, crop-sized bitmap, read the pixels
//! top-down at 32 bits per pixel, and swap the channel order. The machine is
//! verified to follow the strategy/area decision table, to report the
//! documented error for every failing step, to return a raster of exactly
//! `4 * width * height` bytes on success, and to release every handle it
//! acquired exactly once on every path, failing ones included.

use vstd::prelude::*;

use crate::pixels::sub_rect;
use crate::pixels::swap_rb;
use crate::pixels::swap_rb_quads;
use crate::protocol::PrintFlags;
use crate::protocol::RectKind;
use crate::protocol::Request;
use crate::protocol::Response;
use crate::protocol::Surface;
use crate::rect::Rect;

verus! {

/// Every failure a capture pipeline can report. Each OS call the pipelines
/// make is a distinct failure point with its own variant.
#[derive(Clone, Copy, Debug, PartialEq, Eq, Structural)]
pub enum WSError {
    /// Acquiring the screen-bound device context returned a null handle.
    GetDCIsNull,
    /// The window or client rectangle query failed or reported a degenerate
    /// (non-positive or out-of-range) extent.
    GetClientRectIsZero,
    /// Creating an off-screen device context returned a null handle.
    CreateCompatibleDCIsNull,
    /// Creating an off-screen bitmap returned a null handle.
    CreateCompatibleBitmapIsNull,
    /// Selecting a bitmap into a device context failed.
    SelectObjectError,
    /// The window-print render call reported failure.
    PrintWindowIsZero,
    /// The device-independent-bitmap read failed or reported a parameter
    /// error.
    GetDIBitsError,
    /// The virtual screen extent query reported a zero or invalid extent.
    GetSystemMetricsIsZero,
    /// The stretch-copy from the screen reported failure.
    StretchBltIsZero,
    /// The region-copy render or the crop re-blit reported failure.
    BitBltError,
}

/// Which bounds of the window a capture covers.
#[derive(Clone, Copy, Debug, PartialEq, Eq, Structural)]
pub enum Area {
    /// The window's outer bounds, title bar and borders included.
    Full,
    /// The interior drawable region only.
    ClientOnly,
}

/// The render strategy of a window capture.
#[derive(Clone, Copy, Debug, PartialEq, Eq, Structural)]
pub enum Using {
    /// Direct pixel rectangle copy from the screen at the window's position:
    /// fast, but blind to occluded content and to some accelerated surfaces.
    /// Its coordinate basis is always the client-area rectangle.
    BitBlt,
    /// Ask the window to paint itself into the target, off-screen and
    /// accelerated content included: reliable but slower.
    PrintWindow,
}

/// A captured raster: a contiguous byte sequence, row-major, top-down, in
/// conventional channel order, `width * height` pixels.
#[derive(Debug)]
pub struct RgbBuf {
    pub pixels: Vec<u8>,
    pub width: u32,
    pub height: u32,
}

/// The step a window capture is about to perform.
#[derive(Clone, Copy, Debug, PartialEq, Eq, Structural)]
pub enum Stage {
    /// Acquire the window's screen-bound device context.
    AcquireScreenDc,
    /// Query the capture rectangle and fix the raster extent.
    ResolveRect,
    /// Create the off-screen device context.
    CreateMemoryDc,
    /// Create the render target bitmap.
    CreateBitmap,
    /// Select the bitmap into the off-screen device context.
    SelectBitmap,
    /// Render the window content into the bitmap.
    Render,
    /// Create the second off-screen device context for the crop re-blit.
    CreateCropDc,
    /// Create the crop-sized bitmap.
    CreateCropBitmap,
    /// Select the crop bitmap into the crop device context.
    SelectCropBitmap,
    /// Copy the requested sub-rectangle of the rendered bitmap into the crop
    /// bitmap.
    CropBlit,
    /// Restore the selection the crop bitmap displaced.
    RestoreCropSelection,
    /// Read the pixels out of the (possibly cropped) bitmap.
    ReadPixels,
    /// Release the handles still open, one per step.
    Cleanup,
    /// Finished; the outcome is available and every handle is released.
    Done,
}

/// Which rectangle the resolver queries for a strategy and area: the
/// window-print strategy over the full area uses the outer window bounds; a
/// region-copy always works over the client rectangle (its pixel copy can
/// only address the client surface reliably), as does a window-print
/// restricted to the client area.
pub open spec fn rect_kind_for(using: Using, area: Area) -> RectKind {
    match (using, area) {
        (Using::PrintWindow, Area::Full) => RectKind::Window,
        _ => RectKind::Client,
    }
}

/// The window-print flags for an area: full rendered content always;
/// client-only additionally restricts painting to the client area.
pub open spec fn print_flags_for(area: Area) -> PrintFlags {
    match area {
        Area::Full => PrintFlags::FullContent,
        Area::ClientOnly => PrintFlags::ClientFullContent,
    }
}

/// The error a failing render step reports: region-copy and window-print
/// fail differently.
pub open spec fn render_error(using: Using) -> WSError {
    if using is BitBlt {
        WSError::BitBltError
    } else {
        WSError::PrintWindowIsZero
    }
}

/// A window capture in progress.
///
/// The machine is driven by an OS driver: [`WindowCapture::pending`] names
/// the next graphics call to perform, [`WindowCapture::advance`] consumes the
/// call's outcome. When [`WindowCapture::pending`] returns `None` the capture
/// is finished, `outcome` holds the result, and every handle the driver
/// acquired on the machine's behalf has been released again.
pub struct WindowCapture {
    /// The window being captured.
    pub hwnd: isize,
    /// The render strategy.
    pub using: Using,
    /// Which bounds the capture covers.
    pub area: Area,
    /// Crop origin within the resolved rectangle (0,0 when no crop was
    /// requested).
    pub crop_x: i32,
    pub crop_y: i32,
    /// The requested crop extent; `None` defers to the resolved rectangle
    /// minus the crop origin.
    pub crop_size: Option<(i32, i32)>,
    /// Whether any crop parameter was given.
    pub crop: bool,
    /// The resolved rectangle extent (set at `ResolveRect`).
    pub rect_w: i32,
    pub rect_h: i32,
    /// The extent of the returned raster (set at `ResolveRect`): the crop
    /// extent when cropping, the rectangle extent otherwise.
    pub out_w: i32,
    pub out_h: i32,
    /// The step about to be performed.
    pub stage: Stage,
    /// The capture's result, available from the moment the pipeline enters
    /// `Cleanup`.
    pub outcome: Option<Result<RgbBuf, WSError>>,
    /// Which handles the driver currently holds on the machine's behalf.
    pub screen_dc_open: bool,
    pub memory_dc_open: bool,
    pub bitmap_open: bool,
    pub crop_dc_open: bool,
    pub crop_bitmap_open: bool,
    /// Acquire/release tallies, one pair per handle category.
    pub screen_dcs_acquired: u32,
    pub screen_dcs_released: u32,
    pub dcs_created: u32,
    pub dcs_deleted: u32,
    pub bitmaps_created: u32,
    pub bitmaps_deleted: u32,
}

impl WindowCapture {
    /// The capture is finished.
    pub open spec fn done(self) -> bool {
        self.stage == Stage::Done
    }

    /// Every handle category has been released exactly as often as it was
    /// acquired.
    pub open spec fn balanced(self) -> bool {
        &&& self.screen_dcs_acquired == self.screen_dcs_released
        &&& self.dcs_created == self.dcs_deleted
        &&& self.bitmaps_created == self.bitmaps_deleted
    }

    /// Some handle is still held by the driver.
    pub open spec fn any_open(self) -> bool {
        self.screen_dc_open || self.memory_dc_open || self.bitmap_open
            || self.crop_dc_open || self.crop_bitmap_open
    }

    /// The tallies agree with the open-handle flags: what was acquired is
    /// either still open or already released, category by category.
    pub open spec fn handles_accounted(self) -> bool {
        &&& self.screen_dcs_acquired <= 1
        &&& self.dcs_created <= 2
        &&& self.bitmaps_created <= 2
        &&& self.screen_dcs_released + (if self.screen_dc_open { 1int } else { 0 })
            == self.screen_dcs_acquired
        &&& self.dcs_deleted + (if self.memory_dc_open { 1int } else { 0 })
            + (if self.crop_dc_open { 1int } else { 0 }) == self.dcs_created
        &&& self.bitmaps_deleted + (if self.bitmap_open { 1int } else { 0 })
            + (if self.crop_bitmap_open { 1int } else { 0 }) == self.bitmaps_created
    }

    /// The capture re-blits into a crop-sized bitmap after rendering: only a
    /// window-print render needs the second blit, a region-copy crops
    /// directly while rendering.
    pub open spec fn crops_after_render(self) -> bool {
        self.crop && self.using is PrintWindow
    }

    /// The crop extent that a resolved rectangle of the given width yields:
    /// the requested extent, or the rectangle's remainder past the crop
    /// origin.
    pub open spec fn crop_w_of(self, rect_w: int) -> int {
        match self.crop_size {
            Some(s) => s.0 as int,
            None => rect_w - self.crop_x,
        }
    }

    /// As [`Self::crop_w_of`], for the height.
    pub open spec fn crop_h_of(self, rect_h: int) -> int {
        match self.crop_size {
            Some(s) => s.1 as int,
            None => rect_h - self.crop_y,
        }
    }

    /// The rectangle query succeeded with a usable result: the bounds are
    /// non-degenerate and the implied raster extent is positive and within
    /// the coordinate range.
    pub open spec fn resolve_ok(self, left: int, top: int, right: int, bottom: int) -> bool {
        &&& Rect::bounds_valid(left, top, right, bottom)
        &&& 0 < self.crop_w_of(right - left) <= i32::MAX
        &&& 0 < self.crop_h_of(bottom - top) <= i32::MAX
    }

    /// The extents resolved at `ResolveRect` are positive, and without a crop
    /// the raster extent is the rectangle extent itself.
    pub open spec fn dims_ok(self) -> bool {
        &&& 0 < self.rect_w
        &&& 0 < self.rect_h
        &&& 0 < self.out_w
        &&& 0 < self.out_h
        &&& !self.crop ==> self.out_w == self.rect_w && self.out_h == self.rect_h
            && self.crop_x == 0 && self.crop_y == 0
    }

    /// A successful outcome carries a raster of exactly `4 * width * height`
    /// bytes with the resolved extent: dimension consistency.
    pub open spec fn outcome_dims(self) -> bool {
        match self.outcome {
            Some(Ok(buf)) => {
                &&& self.dims_ok()
                &&& buf.width == self.out_w
                &&& buf.height == self.out_h
                &&& buf.pixels@.len() == 4 * self.out_w * self.out_h
            },
            _ => true,
        }
    }

    /// The machine invariant: handle accounting is exact, and each stage
    /// holds exactly the handles acquired so far on the path that reaches it.
    pub open spec fn inv(self) -> bool {
        &&& self.handles_accounted()
        &&& !self.crop ==> self.crop_x == 0 && self.crop_y == 0 && self.crop_size is None
        // Nothing is released before the cleanup phase.
        &&& self.stage != Stage::Cleanup && self.stage != Stage::Done
            ==> self.screen_dcs_released == 0 && self.dcs_deleted == 0 && self.bitmaps_deleted == 0
        &&& match self.stage {
            Stage::AcquireScreenDc => {
                &&& !self.any_open()
                &&& self.screen_dcs_acquired == 0
                &&& self.dcs_created == 0
                &&& self.bitmaps_created == 0
                &&& self.outcome is None
            },
            Stage::ResolveRect => {
                &&& self.screen_dc_open
                &&& !self.memory_dc_open && !self.bitmap_open
                &&& !self.crop_dc_open && !self.crop_bitmap_open
                &&& self.outcome is None
            },
            Stage::CreateMemoryDc => {
                &&& self.screen_dc_open
                &&& !self.memory_dc_open && !self.bitmap_open
                &&& !self.crop_dc_open && !self.crop_bitmap_open
                &&& self.dims_ok()
                &&& self.outcome is None
            },
            Stage::CreateBitmap => {
                &&& self.screen_dc_open && self.memory_dc_open
                &&& !self.bitmap_open && !self.crop_dc_open && !self.crop_bitmap_open
                &&& self.dims_ok()
                &&& self.outcome is None
            },
            Stage::SelectBitmap | Stage::Render => {
                &&& self.screen_dc_open && self.memory_dc_open && self.bitmap_open
                &&& !self.crop_dc_open && !self.crop_bitmap_open
                &&& self.dims_ok()
                &&& self.outcome is None
            },
            Stage::CreateCropDc => {
                &&& self.crops_after_render()
                &&& self.screen_dc_open && self.memory_dc_open && self.bitmap_open
                &&& !self.crop_dc_open && !self.crop_bitmap_open
                &&& self.dims_ok()
                &&& self.outcome is None
            },
            Stage::CreateCropBitmap => {
                &&& self.crops_after_render()
                &&& self.screen_dc_open && self.memory_dc_open && self.bitmap_open
                &&& self.crop_dc_open && !self.crop_bitmap_open
                &&& self.dims_ok()
                &&& self.outcome is None
            },
            Stage::SelectCropBitmap | Stage::CropBlit | Stage::RestoreCropSelection => {
                &&& self.crops_after_render()
                &&& self.screen_dc_open && self.memory_dc_open && self.bitmap_open
                &&& self.crop_dc_open && self.crop_bitmap_open
                &&& self.dims_ok()
                &&& self.outcome is None
            },
            Stage::ReadPixels => {
                &&& self.screen_dc_open && self.memory_dc_open && self.bitmap_open
                &&& self.crop_dc_open == self.crops_after_render()
                &&& self.crop_bitmap_open == self.crops_after_render()
                &&& self.dims_ok()
                &&& self.outcome is None
            },
            Stage::Cleanup => {
                &&& self.outcome is Some
                &&& self.any_open()
                &&& self.outcome_dims()
            },
            Stage::Done => {
                &&& self.outcome is Some
                &&& !self.any_open()
                &&& self.outcome_dims()
            },
        }
    }

    /// The machine failed at the current step: the outcome is the step's
    /// error and the pipeline moves on to releasing whatever is open.
    pub open spec fn failed_with(self, err: WSError) -> bool {
        &&& self.outcome == Some(Err::<RgbBuf, WSError>(err))
        &&& self.stage == (if self.any_open() { Stage::Cleanup } else { Stage::Done })
    }

    /// The release request for the first still-open handle, in reverse
    /// acquisition order.
    pub open spec fn cleanup_request(self) -> Request {
        if self.crop_bitmap_open {
            Request::ReleaseCropBitmap
        } else if self.crop_dc_open {
            Request::ReleaseCropDc
        } else if self.bitmap_open {
            Request::ReleaseBitmap
        } else if self.memory_dc_open {
            Request::ReleaseMemoryDc
        } else {
            Request::ReleaseScreenDc
        }
    }

    /// The state after the driver confirms one release: the first open handle
    /// in release order is closed and its tally incremented; the capture is
    /// done once nothing remains open.
    pub open spec fn spec_release(self) -> WindowCapture {
        let released = if self.crop_bitmap_open {
            WindowCapture {
                crop_bitmap_open: false,
                bitmaps_deleted: (self.bitmaps_deleted + 1) as u32,
                ..self
            }
        } else if self.crop_dc_open {
            WindowCapture { crop_dc_open: false, dcs_deleted: (self.dcs_deleted + 1) as u32, ..self }
        } else if self.bitmap_open {
            WindowCapture {
                bitmap_open: false,
                bitmaps_deleted: (self.bitmaps_deleted + 1) as u32,
                ..self
            }
        } else if self.memory_dc_open {
            WindowCapture { memory_dc_open: false, dcs_deleted: (self.dcs_deleted + 1) as u32, ..self }
        } else {
            WindowCapture {
                screen_dc_open: false,
                screen_dcs_released: (self.screen_dcs_released + 1) as u32,
                ..self
            }
        };
        WindowCapture {
            stage: if released.any_open() { Stage::Cleanup } else { Stage::Done },
            ..released
        }
    }

    /// The first bitmap's extent: a region-copy with a crop renders straight
    /// into a crop-sized bitmap; every other combination renders the full
    /// resolved rectangle (a window-print has no cropping parameter of its
    /// own).
    pub open spec fn first_bitmap_w(self) -> i32 {
        if self.crop && self.using is BitBlt {
            self.out_w
        } else {
            self.rect_w
        }
    }

    /// As [`Self::first_bitmap_w`], for the height.
    pub open spec fn first_bitmap_h(self) -> i32 {
        if self.crop && self.using is BitBlt {
            self.out_h
        } else {
            self.rect_h
        }
    }

    /// The OS call the driver must perform next (meaningful while the
    /// capture is not done).
    pub open spec fn spec_pending(self) -> Request {
        match self.stage {
            Stage::AcquireScreenDc => Request::AcquireScreenDc { hwnd: self.hwnd },
            Stage::ResolveRect => Request::QueryRect {
                hwnd: self.hwnd,
                kind: rect_kind_for(self.using, self.area),
            },
            Stage::CreateMemoryDc => Request::CreateMemoryDc,
            Stage::CreateBitmap => Request::CreateBitmap {
                width: self.first_bitmap_w(),
                height: self.first_bitmap_h(),
            },
            Stage::SelectBitmap => Request::SelectBitmap,
            Stage::Render => if self.using is BitBlt {
                Request::BlitFromScreen {
                    width: self.out_w,
                    height: self.out_h,
                    src_x: self.crop_x,
                    src_y: self.crop_y,
                }
            } else {
                Request::PrintWindow { hwnd: self.hwnd, flags: print_flags_for(self.area) }
            },
            Stage::CreateCropDc => Request::CreateCropDc,
            Stage::CreateCropBitmap => Request::CreateCropBitmap {
                width: self.out_w,
                height: self.out_h,
            },
            Stage::SelectCropBitmap => Request::SelectCropBitmap,
            Stage::CropBlit => Request::CropBlit {
                width: self.out_w,
                height: self.out_h,
                src_x: self.crop_x,
                src_y: self.crop_y,
            },
            Stage::RestoreCropSelection => Request::RestoreCropSelection,
            Stage::ReadPixels => Request::ReadPixels {
                surface: if self.crops_after_render() { Surface::Crop } else { Surface::Primary },
                width: self.out_w,
                height: self.out_h,
                bits_per_pixel: 32,
            },
            Stage::Cleanup => self.cleanup_request(),
            // Never handed out: a finished capture has no pending request.
            Stage::Done => Request::ReleaseScreenDc,
        }
    }

    /// The OS call the driver must perform next, or `None` once the capture
    /// is finished.
    pub fn pending(&self) -> (r: Option<Request>)
        ensures
            r == (if self.done() { Option::<Request>::None } else { Some(self.spec_pending()) }),
    {
        match self.stage {
            Stage::AcquireScreenDc => Some(Request::AcquireScreenDc { hwnd: self.hwnd }),
            Stage::ResolveRect => {
                let kind = match (self.using, self.area) {
                    (Using::PrintWindow, Area::Full) => RectKind::Window,
                    _ => RectKind::Client,
                };
                Some(Request::QueryRect { hwnd: self.hwnd, kind })
            },
            Stage::CreateMemoryDc => Some(Request::CreateMemoryDc),
            Stage::CreateBitmap => {
                if self.crop && matches!(self.using, Using::BitBlt) {
                    Some(Request::CreateBitmap { width: self.out_w, height: self.out_h })
                } else {
                    Some(Request::CreateBitmap { width: self.rect_w, height: self.rect_h })
                }
            },
            Stage::SelectBitmap => Some(Request::SelectBitmap),
            Stage::Render => match self.using {
                Using::BitBlt => Some(Request::BlitFromScreen {
                    width: self.out_w,
                    height: self.out_h,
                    src_x: self.crop_x,
                    src_y: self.crop_y,
                }),
                Using::PrintWindow => {
                    let flags = match self.area {
                        Area::Full => PrintFlags::FullContent,
                        Area::ClientOnly => PrintFlags::ClientFullContent,
                    };
                    Some(Request::PrintWindow { hwnd: self.hwnd, flags })
                },
            },
            Stage::CreateCropDc => Some(Request::CreateCropDc),
            Stage::CreateCropBitmap => Some(Request::CreateCropBitmap {
                width: self.out_w,
                height: self.out_h,
            }),
            Stage::SelectCropBitmap => Some(Request::SelectCropBitmap),
            Stage::CropBlit => Some(Request::CropBlit {
                width: self.out_w,
                height: self.out_h,
                src_x: self.crop_x,
                src_y: self.crop_y,
            }),
            Stage::RestoreCropSelection => Some(Request::RestoreCropSelection),
            Stage::ReadPixels => {
                let surface = if self.crop && matches!(self.using, Using::PrintWindow) {
                    Surface::Crop
                } else {
                    Surface::Primary
                };
                Some(Request::ReadPixels {
                    surface,
                    width: self.out_w,
                    height: self.out_h,
                    bits_per_pixel: 32,
                })
            },
            Stage::Cleanup => {
                if self.crop_bitmap_open {
                    Some(Request::ReleaseCropBitmap)
                } else if self.crop_dc_open {
                    Some(Request::ReleaseCropDc)
                } else if self.bitmap_open {
                    Some(Request::ReleaseBitmap)
                } else if self.memory_dc_open {
                    Some(Request::ReleaseMemoryDc)
                } else {
                    Some(Request::ReleaseScreenDc)
                }
            },
            Stage::Done => None,
        }
    }

    /// Records the current step's failure and turns to releasing whatever is
    /// open.
    fn fail(&mut self, err: WSError)
        ensures
            *final(self) == (WindowCapture {
                stage: if old(self).any_open() { Stage::Cleanup } else { Stage::Done },
                outcome: Some(Err::<RgbBuf, WSError>(err)),
                ..*old(self)
            }),
    {
        self.outcome = Some(Err(err));
        self.stage = if self.screen_dc_open || self.memory_dc_open || self.bitmap_open
            || self.crop_dc_open || self.crop_bitmap_open {
            Stage::Cleanup
        } else {
            Stage::Done
        };
    }

    /// Consumes the driver's response to the pending request and moves to the
    /// next step.
    ///
    /// The contract is the pipeline's decision table: each clause pins down,
    /// for one stage, the successor state, the handle bookkeeping, and the
    /// outcome, for every possible response.
    pub fn advance(&mut self, response: Response)
        requires
            old(self).inv(),
            !old(self).done(),
            old(self).spec_pending().accepts(response),
        ensures
            final(self).inv(),
            // The capture parameters never change.
            final(self).hwnd == old(self).hwnd,
            final(self).using == old(self).using,
            final(self).area == old(self).area,
            final(self).crop == old(self).crop,
            final(self).crop_x == old(self).crop_x,
            final(self).crop_y == old(self).crop_y,
            final(self).crop_size == old(self).crop_size,
            // The extents are fixed once resolved.
            old(self).stage != Stage::ResolveRect ==> final(self).rect_w == old(self).rect_w
                && final(self).rect_h == old(self).rect_h
                && final(self).out_w == old(self).out_w
                && final(self).out_h == old(self).out_h,
            // Handle balance: once done, every category's acquisitions equal
            // its releases.
            final(self).done() ==> final(self).balanced(),
            // Each acquire tally moves exactly with its create step...
            final(self).screen_dcs_acquired == old(self).screen_dcs_acquired
                + (if old(self).stage == Stage::AcquireScreenDc && response.ok() { 1int } else { 0 }),
            final(self).dcs_created == old(self).dcs_created
                + (if (old(self).stage == Stage::CreateMemoryDc
                    || old(self).stage == Stage::CreateCropDc) && response.ok() { 1int } else { 0 }),
            final(self).bitmaps_created == old(self).bitmaps_created
                + (if (old(self).stage == Stage::CreateBitmap
                    || old(self).stage == Stage::CreateCropBitmap) && response.ok() { 1int } else { 0 }),
            // ...release tallies move only during cleanup...
            old(self).stage != Stage::Cleanup ==> final(self).screen_dcs_released
                == old(self).screen_dcs_released
                && final(self).dcs_deleted == old(self).dcs_deleted
                && final(self).bitmaps_deleted == old(self).bitmaps_deleted,
            // ...and a handle flag is set only by its create step.
            old(self).stage != Stage::Cleanup ==> {
                &&& final(self).screen_dc_open == (old(self).screen_dc_open
                    || (old(self).stage == Stage::AcquireScreenDc && response.ok()))
                &&& final(self).memory_dc_open == (old(self).memory_dc_open
                    || (old(self).stage == Stage::CreateMemoryDc && response.ok()))
                &&& final(self).bitmap_open == (old(self).bitmap_open
                    || (old(self).stage == Stage::CreateBitmap && response.ok()))
                &&& final(self).crop_dc_open == (old(self).crop_dc_open
                    || (old(self).stage == Stage::CreateCropDc && response.ok()))
                &&& final(self).crop_bitmap_open == (old(self).crop_bitmap_open
                    || (old(self).stage == Stage::CreateCropBitmap && response.ok()))
            },
            // Acquiring the screen device context.
            old(self).stage == Stage::AcquireScreenDc ==> (response matches Response::Handle { ok }
                ==> (if ok {
                    final(self).stage == Stage::ResolveRect && final(self).outcome is None
                } else {
                    final(self).failed_with(WSError::GetDCIsNull)
                })),
            // Resolving the rectangle: on a usable result the extents are
            // fixed; a failed query or degenerate extent is the rectangle
            // error.
            old(self).stage == Stage::ResolveRect ==> (response matches Response::Bounds {
                ok, left, top, right, bottom }
                ==> (if ok && old(self).resolve_ok(left as int, top as int, right as int, bottom as int) {
                    &&& final(self).stage == Stage::CreateMemoryDc
                    &&& final(self).rect_w == right - left
                    &&& final(self).rect_h == bottom - top
                    &&& final(self).out_w == old(self).crop_w_of(right - left)
                    &&& final(self).out_h == old(self).crop_h_of(bottom - top)
                    &&& final(self).outcome is None
                } else {
                    final(self).failed_with(WSError::GetClientRectIsZero)
                })),
            // Creating the off-screen device context.
            old(self).stage == Stage::CreateMemoryDc ==> (response matches Response::Handle { ok }
                ==> (if ok {
                    final(self).stage == Stage::CreateBitmap && final(self).outcome is None
                } else {
                    final(self).failed_with(WSError::CreateCompatibleDCIsNull)
                })),
            // Creating the render target bitmap.
            old(self).stage == Stage::CreateBitmap ==> (response matches Response::Handle { ok }
                ==> (if ok {
                    final(self).stage == Stage::SelectBitmap && final(self).outcome is None
                } else {
                    final(self).failed_with(WSError::CreateCompatibleBitmapIsNull)
                })),
            // Selecting the bitmap.
            old(self).stage == Stage::SelectBitmap ==> (response matches Response::Handle { ok }
                ==> (if ok {
                    final(self).stage == Stage::Render && final(self).outcome is None
                } else {
                    final(self).failed_with(WSError::SelectObjectError)
                })),
            // Rendering: only a window-print capture with a crop goes through
            // the re-blit stages.
            old(self).stage == Stage::Render ==> (response matches Response::Completed { ok }
                ==> (if ok {
                    final(self).stage == (if old(self).crops_after_render() {
                        Stage::CreateCropDc
                    } else {
                        Stage::ReadPixels
                    }) && final(self).outcome is None
                } else {
                    final(self).failed_with(render_error(old(self).using))
                })),
            // The crop re-blit stages.
            old(self).stage == Stage::CreateCropDc ==> (response matches Response::Handle { ok }
                ==> (if ok {
                    final(self).stage == Stage::CreateCropBitmap && final(self).outcome is None
                } else {
                    final(self).failed_with(WSError::CreateCompatibleDCIsNull)
                })),
            old(self).stage == Stage::CreateCropBitmap ==> (response matches Response::Handle { ok }
                ==> (if ok {
                    final(self).stage == Stage::SelectCropBitmap && final(self).outcome is None
                } else {
                    final(self).failed_with(WSError::CreateCompatibleBitmapIsNull)
                })),
            old(self).stage == Stage::SelectCropBitmap ==> (response matches Response::Handle { ok }
                ==> (if ok {
                    final(self).stage == Stage::CropBlit && final(self).outcome is None
                } else {
                    final(self).failed_with(WSError::SelectObjectError)
                })),
            old(self).stage == Stage::CropBlit ==> (response matches Response::Completed { ok }
                ==> (if ok {
                    final(self).stage == Stage::RestoreCropSelection && final(self).outcome is None
                } else {
                    final(self).failed_with(WSError::BitBltError)
                })),
            old(self).stage == Stage::RestoreCropSelection ==> (response matches Response::Handle { ok }
                ==> (if ok {
                    final(self).stage == Stage::ReadPixels && final(self).outcome is None
                } else {
                    final(self).failed_with(WSError::SelectObjectError)
                })),
            // Reading the pixels: a successful read of the declared size
            // yields the channel-swapped raster; anything else is the
            // extraction error.
            old(self).stage == Stage::ReadPixels ==> (response matches Response::Pixels { ok, data }
                ==> (if ok && data@.len() == 4 * old(self).out_w * old(self).out_h {
                    &&& final(self).stage == Stage::Cleanup
                    &&& (final(self).outcome matches Some(Ok(buf))
                        && buf.pixels@ == swap_rb(data@, 4)
                        && buf.width == old(self).out_w as u32
                        && buf.height == old(self).out_h as u32)
                } else {
                    final(self).failed_with(WSError::GetDIBitsError)
                })),
            // Releasing: one handle per confirmation, reverse acquisition
            // order, outcome untouched.
            old(self).stage == Stage::Cleanup ==> *final(self) == old(self).spec_release(),
    {
        // In every arm, response variants other than the one the pending
        // request accepts are unreachable by the requires clause.
        match self.stage {
            Stage::AcquireScreenDc => match response {
                Response::Handle { ok } => {
                    if ok {
                        self.screen_dc_open = true;
                        self.screen_dcs_acquired = self.screen_dcs_acquired + 1;
                        self.stage = Stage::ResolveRect;
                    } else {
                        self.fail(WSError::GetDCIsNull);
                    }
                },
                _ => {
                    proof {
                        assert(false);
                    }
                },
            },
            Stage::ResolveRect => match response {
                Response::Bounds { ok, left, top, right, bottom } => {
                    if !ok {
                        self.fail(WSError::GetClientRectIsZero);
                    } else {
                        match Rect::from_bounds(left, top, right, bottom) {
                            None => {
                                self.fail(WSError::GetClientRectIsZero);
                            },
                            Some(rect) => {
                                let (cw, ch): (i64, i64) = match self.crop_size {
                                    Some(s) => (s.0 as i64, s.1 as i64),
                                    None => (
                                        rect.width as i64 - self.crop_x as i64,
                                        rect.height as i64 - self.crop_y as i64,
                                    ),
                                };
                                if 0 < cw && cw <= i32::MAX as i64 && 0 < ch
                                    && ch <= i32::MAX as i64 {
                                    self.rect_w = rect.width;
                                    self.rect_h = rect.height;
                                    self.out_w = cw as i32;
                                    self.out_h = ch as i32;
                                    self.stage = Stage::CreateMemoryDc;
                                } else {
                                    self.fail(WSError::GetClientRectIsZero);
                                }
                            },
                        }
                    }
                },
                _ => {
                    proof {
                        assert(false);
                    }
                },
            },
            Stage::CreateMemoryDc => match response {
                Response::Handle { ok } => {
                    if ok {
                        self.memory_dc_open = true;
                        self.dcs_created = self.dcs_created + 1;
                        self.stage = Stage::CreateBitmap;
                    } else {
                        self.fail(WSError::CreateCompatibleDCIsNull);
                    }
                },
                _ => {
                    proof {
                        assert(false);
                    }
                },
            },
            Stage::CreateBitmap => match response {
                Response::Handle { ok } => {
                    if ok {
                        self.bitmap_open = true;
                        self.bitmaps_created = self.bitmaps_created + 1;
                        self.stage = Stage::SelectBitmap;
                    } else {
                        self.fail(WSError::CreateCompatibleBitmapIsNull);
                    }
                },
                _ => {
                    proof {
                        assert(false);
                    }
                },
            },
            Stage::SelectBitmap => match response {
                Response::Handle { ok } => {
                    if ok {
                        self.stage = Stage::Render;
                    } else {
                        self.fail(WSError::SelectObjectError);
                    }
                },
                _ => {
                    proof {
                        assert(false);
                    }
                },
            },
            Stage::Render => match response {
                Response::Completed { ok } => {
                    if ok {
                        self.stage = if self.crop && matches!(self.using, Using::PrintWindow) {
                            Stage::CreateCropDc
                        } else {
                            Stage::ReadPixels
                        };
                    } else {
                        let err = match self.using {
                            Using::BitBlt => WSError::BitBltError,
                            Using::PrintWindow => WSError::PrintWindowIsZero,
                        };
                        self.fail(err);
                    }
                },
                _ => {
                    proof {
                        assert(false);
                    }
                },
            },
            Stage::CreateCropDc => match response {
                Response::Handle { ok } => {
                    if ok {
                        self.crop_dc_open = true;
                        self.dcs_created = self.dcs_created + 1;
                        self.stage = Stage::CreateCropBitmap;
                    } else {
                        self.fail(WSError::CreateCompatibleDCIsNull);
                    }
                },
                _ => {
                    proof {
                        assert(false);
                    }
                },
            },
            Stage::CreateCropBitmap => match response {
                Response::Handle { ok } => {
                    if ok {
                        self.crop_bitmap_open = true;
                        self.bitmaps_created = self.bitmaps_created + 1;
                        self.stage = Stage::SelectCropBitmap;
                    } else {
                        self.fail(WSError::CreateCompatibleBitmapIsNull);
                    }
                },
                _ => {
                    proof {
                        assert(false);
                    }
                },
            },
            Stage::SelectCropBitmap => match response {
                Response::Handle { ok } => {
                    if ok {
                        self.stage = Stage::CropBlit;
                    } else {
                        self.fail(WSError::SelectObjectError);
                    }
                },
                _ => {
                    proof {
                        assert(false);
                    }
                },
            },
            Stage::CropBlit => match response {
                Response::Completed { ok } => {
                    if ok {
                        self.stage = Stage::RestoreCropSelection;
                    } else {
                        self.fail(WSError::BitBltError);
                    }
                },
                _ => {
                    proof {
                        assert(false);
                    }
                },
            },
            Stage::RestoreCropSelection => match response {
                Response::Handle { ok } => {
                    if ok {
                        self.stage = Stage::ReadPixels;
                    } else {
                        self.fail(WSError::SelectObjectError);
                    }
                },
                _ => {
                    proof {
                        assert(false);
                    }
                },
            },
            Stage::ReadPixels => match response {
                Response::Pixels { ok, data } => {
                    proof {
                        assert(4 * (self.out_w as int) * (self.out_h as int)
                            < 0x1_0000_0000_0000_0000) by (nonlinear_arith)
                            requires
                                0 < self.out_w <= 0x7fff_ffff,
                                0 < self.out_h <= 0x7fff_ffff;
                    }
                    let expected: u64 = 4u64 * (self.out_w as u64) * (self.out_h as u64);
                    if ok && data.len() as u64 == expected {
                        let mut pixels = data;
                        swap_rb_quads(&mut pixels);
                        self.outcome = Some(Ok(RgbBuf {
                            pixels,
                            width: self.out_w as u32,
                            height: self.out_h as u32,
                        }));
                        self.stage = Stage::Cleanup;
                    } else {
                        self.fail(WSError::GetDIBitsError);
                    }
                },
                _ => {
                    proof {
                        assert(false);
                    }
                },
            },
            Stage::Cleanup => match response {
                Response::Completed { .. } => {
                    if self.crop_bitmap_open {
                        self.crop_bitmap_open = false;
                        self.bitmaps_deleted = self.bitmaps_deleted + 1;
                    } else if self.crop_dc_open {
                        self.crop_dc_open = false;
                        self.dcs_deleted = self.dcs_deleted + 1;
                    } else if self.bitmap_open {
                        self.bitmap_open = false;
                        self.bitmaps_deleted = self.bitmaps_deleted + 1;
                    } else if self.memory_dc_open {
                        self.memory_dc_open = false;
                        self.dcs_deleted = self.dcs_deleted + 1;
                    } else {
                        self.screen_dc_open = false;
                        self.screen_dcs_released = self.screen_dcs_released + 1;
                    }
                    if !(self.screen_dc_open || self.memory_dc_open || self.bitmap_open
                        || self.crop_dc_open || self.crop_bitmap_open) {
                        self.stage = Stage::Done;
                    }
                },
                _ => {
                    proof {
                        assert(false);
                    }
                },
            },
            Stage::Done => {
                proof {
                    assert(false);
                }
            },
        }
    }
}

/// Handle balance: however a window capture ends, success or failure, once
/// it is done the number of screen device contexts acquired equals the number
/// released, and likewise for off-screen device contexts and bitmaps.
pub proof fn lemma_window_handle_balance(s: WindowCapture)
    requires
        s.inv(),
        s.done(),
    ensures
        s.balanced(),
{
}

/// Round-trip crop: when a full capture and a cropped capture read the same
/// rendered raster `raw` — the cropped one through a blit that extracts the
/// crop rectangle, as the pipeline requests — the cropped capture's pixels
/// are exactly the crop rectangle's portion of the full capture's pixels.
/// The two `requires` on `full` and `cropped` are what
/// [`WindowCapture::advance`] guarantees of the two captures' outcomes at
/// their pixel-reading step.
pub proof fn lemma_round_trip_crop(
    raw: Seq<u8>,
    full: Seq<u8>,
    cropped: Seq<u8>,
    src_width: int,
    src_height: int,
    x: int,
    y: int,
    width: int,
    height: int,
)
    requires
        raw.len() == 4 * src_width * src_height,
        0 <= x,
        0 <= y,
        0 < width,
        0 < height,
        x + width <= src_width,
        y + height <= src_height,
        full == swap_rb(raw, 4),
        cropped == swap_rb(sub_rect(raw, src_width, 4, x, y, width, height), 4),
    ensures
        cropped == sub_rect(full, src_width, 4, x, y, width, height),
{
    crate::pixels::lemma_crop_after_swap(raw, src_width, src_height, x, y, width, height);
}

/// Starts a window capture with explicit strategy, area, and optional crop:
/// the returned machine is at its first step, with the crop origin defaulted
/// to (0,0) and the crop extent recorded for resolution against the
/// rectangle.
///
/// A crop rectangle reaching beyond the resolved rectangle is not clamped:
/// the copy's own semantics govern what the out-of-range region holds. A crop
/// whose computed extent is not positive (or overflows the coordinate range)
/// fails as a degenerate rectangle.
pub fn capture_window_ex(
    hwnd: isize,
    using: Using,
    area: Area,
    crop_xy: Option<(i32, i32)>,
    crop_wh: Option<(i32, i32)>,
) -> (s: WindowCapture)
    ensures
        s.inv(),
        s.stage == Stage::AcquireScreenDc,
        s.hwnd == hwnd,
        s.using == using,
        s.area == area,
        s.crop_x == (match crop_xy {
            Some(p) => p.0,
            None => 0,
        }),
        s.crop_y == (match crop_xy {
            Some(p) => p.1,
            None => 0,
        }),
        s.crop_size == crop_wh,
        s.crop == (crop_xy is Some || crop_wh is Some),
{
    let (crop_x, crop_y): (i32, i32) = match crop_xy {
        Some(p) => p,
        None => (0, 0),
    };
    WindowCapture {
        hwnd,
        using,
        area,
        crop_x,
        crop_y,
        crop_size: crop_wh,
        crop: crop_xy.is_some() || crop_wh.is_some(),
        rect_w: 0,
        rect_h: 0,
        out_w: 0,
        out_h: 0,
        stage: Stage::AcquireScreenDc,
        outcome: None,
        screen_dc_open: false,
        memory_dc_open: false,
        bitmap_open: false,
        crop_dc_open: false,
        crop_bitmap_open: false,
        screen_dcs_acquired: 0,
        screen_dcs_released: 0,
        dcs_created: 0,
        dcs_deleted: 0,
        bitmaps_created: 0,
        bitmaps_deleted: 0,
    }
}

/// Starts a window capture with the default configuration: window-print
/// rendering over the full window bounds, no crop.
pub fn capture_window(hwnd: isize) -> (s: WindowCapture)
    ensures
        s.inv(),
        s.stage == Stage::AcquireScreenDc,
        s.hwnd == hwnd,
        s.using == Using::PrintWindow,
        s.area == Area::Full,
        s.crop_x == 0,
        s.crop_y == 0,
        s.crop_size is None,
        !s.crop,
{
    capture_window_ex(hwnd, Using::PrintWindow, Area::Full, None, None)
}

} // verus!
