//! The full-display capture pipeline.
//!
//! [`DisplayCapture`] sequences the OS calls that copy the whole virtual
//! screen (the bounding box of all attached monitors) into an off-screen
//! bitmap and extract its pixels: acquire the desktop's screen device
//! context, create a compatible device context, query the virtual screen's
//! origin and extent, create and select a full-extent bitmap, stretch-copy
//! (a bulk copy — source and destination extents are equal), read the pixels
//! top-down at 24 bits per pixel, and repack and channel-swap them. As for
//! the window pipeline, the machine is verified to report the documented
//! error for every failing step, to return a raster of exactly
//! `3 * width * height` bytes on success, and to release every handle it
//! acquired exactly once on every path.

use vstd::prelude::*;

use crate::capture::RgbBuf;
use crate::capture::WSError;
use crate::pixels::extract_rgb;
use crate::pixels::pack_rows;
use crate::pixels::row_stride_24;
use crate::pixels::swap_rb;
use crate::protocol::Request;
use crate::protocol::Response;
use crate::protocol::Surface;

verus! {

/// The step a display capture is about to perform.
#[derive(Clone, Copy, Debug, PartialEq, Eq, Structural)]
pub enum DisplayStage {
    /// Acquire the screen device context of the whole screen.
    AcquireScreenDc,
    /// Create the off-screen device context.
    CreateMemoryDc,
    /// Query the virtual screen's origin and extent.
    QueryVirtualScreen,
    /// Create the full-extent bitmap.
    CreateBitmap,
    /// Select the bitmap into the off-screen device context.
    SelectBitmap,
    /// Bulk-copy the virtual screen into the bitmap.
    Stretch,
    /// Read the pixels out of the bitmap.
    ReadPixels,
    /// Release the handles still open, one per step.
    Cleanup,
    /// Finished; the outcome is available and every handle is released.
    Done,
}

/// A display capture in progress, driven exactly as a [`crate::capture::WindowCapture`].
pub struct DisplayCapture {
    /// The virtual screen's origin (set at `QueryVirtualScreen`; may be
    /// negative on multi-monitor arrangements).
    pub origin_x: i32,
    pub origin_y: i32,
    /// The virtual screen's extent (set at `QueryVirtualScreen`).
    pub width: i32,
    pub height: i32,
    /// The step about to be performed.
    pub stage: DisplayStage,
    /// The capture's result, available from the moment the pipeline enters
    /// `Cleanup`.
    pub outcome: Option<Result<RgbBuf, WSError>>,
    /// Which handles the driver currently holds on the machine's behalf.
    pub screen_dc_open: bool,
    pub memory_dc_open: bool,
    pub bitmap_open: bool,
    /// Acquire/release tallies, one pair per handle category.
    pub screen_dcs_acquired: u32,
    pub screen_dcs_released: u32,
    pub dcs_created: u32,
    pub dcs_deleted: u32,
    pub bitmaps_created: u32,
    pub bitmaps_deleted: u32,
}

impl DisplayCapture {
    /// The capture is finished.
    pub open spec fn done(self) -> bool {
        self.stage == DisplayStage::Done
    }

    /// Every handle category has been released exactly as often as it was
    /// acquired.
    pub open spec fn balanced(self) -> bool {
        &&& self.screen_dcs_acquired == self.screen_dcs_released
        &&& self.dcs_created == self.dcs_deleted
        &&& self.bitmaps_created == self.bitmaps_deleted
    }

    /// Some handle is still held by the driver.
    pub open spec fn any_open(self) -> bool {
        self.screen_dc_open || self.memory_dc_open || self.bitmap_open
    }

    /// The tallies agree with the open-handle flags.
    pub open spec fn handles_accounted(self) -> bool {
        &&& self.screen_dcs_acquired <= 1
        &&& self.dcs_created <= 1
        &&& self.bitmaps_created <= 1
        &&& self.screen_dcs_released + (if self.screen_dc_open { 1int } else { 0 })
            == self.screen_dcs_acquired
        &&& self.dcs_deleted + (if self.memory_dc_open { 1int } else { 0 }) == self.dcs_created
        &&& self.bitmaps_deleted + (if self.bitmap_open { 1int } else { 0 })
            == self.bitmaps_created
    }

    /// The extent resolved at `QueryVirtualScreen` is strictly positive.
    pub open spec fn dims_ok(self) -> bool {
        0 < self.width && 0 < self.height
    }

    /// A successful outcome carries a raster of exactly `3 * width * height`
    /// bytes with the virtual screen's extent: dimension consistency.
    pub open spec fn outcome_dims(self) -> bool {
        match self.outcome {
            Some(Ok(buf)) => {
                &&& self.dims_ok()
                &&& buf.width == self.width
                &&& buf.height == self.height
                &&& buf.pixels@.len() == 3 * self.width * self.height
            },
            _ => true,
        }
    }

    /// The machine invariant: handle accounting is exact, and each stage
    /// holds exactly the handles acquired so far.
    pub open spec fn inv(self) -> bool {
        &&& self.handles_accounted()
        // Nothing is released before the cleanup phase.
        &&& self.stage != DisplayStage::Cleanup && self.stage != DisplayStage::Done
            ==> self.screen_dcs_released == 0 && self.dcs_deleted == 0
                && self.bitmaps_deleted == 0
        &&& match self.stage {
            DisplayStage::AcquireScreenDc => {
                &&& !self.any_open()
                &&& self.screen_dcs_acquired == 0
                &&& self.dcs_created == 0
                &&& self.bitmaps_created == 0
                &&& self.outcome is None
            },
            DisplayStage::CreateMemoryDc => {
                &&& self.screen_dc_open
                &&& !self.memory_dc_open && !self.bitmap_open
                &&& self.outcome is None
            },
            DisplayStage::QueryVirtualScreen => {
                &&& self.screen_dc_open && self.memory_dc_open
                &&& !self.bitmap_open
                &&& self.outcome is None
            },
            DisplayStage::CreateBitmap => {
                &&& self.screen_dc_open && self.memory_dc_open
                &&& !self.bitmap_open
                &&& self.dims_ok()
                &&& self.outcome is None
            },
            DisplayStage::SelectBitmap | DisplayStage::Stretch | DisplayStage::ReadPixels => {
                &&& self.screen_dc_open && self.memory_dc_open && self.bitmap_open
                &&& self.dims_ok()
                &&& self.outcome is None
            },
            DisplayStage::Cleanup => {
                &&& self.outcome is Some
                &&& self.any_open()
                &&& self.outcome_dims()
            },
            DisplayStage::Done => {
                &&& self.outcome is Some
                &&& !self.any_open()
                &&& self.outcome_dims()
            },
        }
    }

    /// The machine failed at the current step.
    pub open spec fn failed_with(self, err: WSError) -> bool {
        &&& self.outcome == Some(Err::<RgbBuf, WSError>(err))
        &&& self.stage == (if self.any_open() {
            DisplayStage::Cleanup
        } else {
            DisplayStage::Done
        })
    }

    /// The release request for the first still-open handle, in reverse
    /// acquisition order.
    pub open spec fn cleanup_request(self) -> Request {
        if self.bitmap_open {
            Request::ReleaseBitmap
        } else if self.memory_dc_open {
            Request::ReleaseMemoryDc
        } else {
            Request::ReleaseScreenDc
        }
    }

    /// The state after the driver confirms one release.
    pub open spec fn spec_release(self) -> DisplayCapture {
        let released = if self.bitmap_open {
            DisplayCapture {
                bitmap_open: false,
                bitmaps_deleted: (self.bitmaps_deleted + 1) as u32,
                ..self
            }
        } else if self.memory_dc_open {
            DisplayCapture { memory_dc_open: false, dcs_deleted: (self.dcs_deleted + 1) as u32, ..self }
        } else {
            DisplayCapture {
                screen_dc_open: false,
                screen_dcs_released: (self.screen_dcs_released + 1) as u32,
                ..self
            }
        };
        DisplayCapture {
            stage: if released.any_open() { DisplayStage::Cleanup } else { DisplayStage::Done },
            ..released
        }
    }

    /// The OS call the driver must perform next (meaningful while the
    /// capture is not done).
    pub open spec fn spec_pending(self) -> Request {
        match self.stage {
            DisplayStage::AcquireScreenDc => Request::AcquireScreenDc { hwnd: 0 },
            DisplayStage::CreateMemoryDc => Request::CreateMemoryDc,
            DisplayStage::QueryVirtualScreen => Request::QueryVirtualScreen,
            DisplayStage::CreateBitmap => Request::CreateBitmap {
                width: self.width,
                height: self.height,
            },
            DisplayStage::SelectBitmap => Request::SelectBitmap,
            DisplayStage::Stretch => Request::StretchFromScreen {
                width: self.width,
                height: self.height,
                src_x: self.origin_x,
                src_y: self.origin_y,
            },
            DisplayStage::ReadPixels => Request::ReadPixels {
                surface: Surface::Primary,
                width: self.width,
                height: self.height,
                bits_per_pixel: 24,
            },
            DisplayStage::Cleanup => self.cleanup_request(),
            // Never handed out: a finished capture has no pending request.
            DisplayStage::Done => Request::ReleaseScreenDc,
        }
    }

    /// The OS call the driver must perform next, or `None` once the capture
    /// is finished.
    pub fn pending(&self) -> (r: Option<Request>)
        ensures
            r == (if self.done() { Option::<Request>::None } else { Some(self.spec_pending()) }),
    {
        match self.stage {
            DisplayStage::AcquireScreenDc => Some(Request::AcquireScreenDc { hwnd: 0 }),
            DisplayStage::CreateMemoryDc => Some(Request::CreateMemoryDc),
            DisplayStage::QueryVirtualScreen => Some(Request::QueryVirtualScreen),
            DisplayStage::CreateBitmap => Some(Request::CreateBitmap {
                width: self.width,
                height: self.height,
            }),
            DisplayStage::SelectBitmap => Some(Request::SelectBitmap),
            DisplayStage::Stretch => Some(Request::StretchFromScreen {
                width: self.width,
                height: self.height,
                src_x: self.origin_x,
                src_y: self.origin_y,
            }),
            DisplayStage::ReadPixels => Some(Request::ReadPixels {
                surface: Surface::Primary,
                width: self.width,
                height: self.height,
                bits_per_pixel: 24,
            }),
            DisplayStage::Cleanup => {
                if self.bitmap_open {
                    Some(Request::ReleaseBitmap)
                } else if self.memory_dc_open {
                    Some(Request::ReleaseMemoryDc)
                } else {
                    Some(Request::ReleaseScreenDc)
                }
            },
            DisplayStage::Done => None,
        }
    }

    /// Records the current step's failure and turns to releasing whatever is
    /// open.
    fn fail(&mut self, err: WSError)
        ensures
            *final(self) == (DisplayCapture {
                stage: if old(self).any_open() { DisplayStage::Cleanup } else { DisplayStage::Done },
                outcome: Some(Err::<RgbBuf, WSError>(err)),
                ..*old(self)
            }),
    {
        self.outcome = Some(Err(err));
        self.stage = if self.screen_dc_open || self.memory_dc_open || self.bitmap_open {
            DisplayStage::Cleanup
        } else {
            DisplayStage::Done
        };
    }

    /// Consumes the driver's response to the pending request and moves to the
    /// next step. The contract pins down, stage by stage, the successor
    /// state, the handle bookkeeping, and the outcome, for every possible
    /// response.
    pub fn advance(&mut self, response: Response)
        requires
            old(self).inv(),
            !old(self).done(),
            old(self).spec_pending().accepts(response),
        ensures
            final(self).inv(),
            // The origin and extent are fixed once queried.
            old(self).stage != DisplayStage::QueryVirtualScreen ==> final(self).origin_x
                == old(self).origin_x && final(self).origin_y == old(self).origin_y
                && final(self).width == old(self).width && final(self).height == old(self).height,
            // Handle balance: once done, every category's acquisitions equal
            // its releases.
            final(self).done() ==> final(self).balanced(),
            // Each acquire tally moves exactly with its create step...
            final(self).screen_dcs_acquired == old(self).screen_dcs_acquired + (if old(self).stage
                == DisplayStage::AcquireScreenDc && response.ok() { 1int } else { 0 }),
            final(self).dcs_created == old(self).dcs_created + (if old(self).stage
                == DisplayStage::CreateMemoryDc && response.ok() { 1int } else { 0 }),
            final(self).bitmaps_created == old(self).bitmaps_created + (if old(self).stage
                == DisplayStage::CreateBitmap && response.ok() { 1int } else { 0 }),
            // ...release tallies move only during cleanup...
            old(self).stage != DisplayStage::Cleanup ==> final(self).screen_dcs_released
                == old(self).screen_dcs_released && final(self).dcs_deleted == old(self).dcs_deleted
                && final(self).bitmaps_deleted == old(self).bitmaps_deleted,
            // ...and a handle flag is set only by its create step.
            old(self).stage != DisplayStage::Cleanup ==> {
                &&& final(self).screen_dc_open == (old(self).screen_dc_open || (old(self).stage
                    == DisplayStage::AcquireScreenDc && response.ok()))
                &&& final(self).memory_dc_open == (old(self).memory_dc_open || (old(self).stage
                    == DisplayStage::CreateMemoryDc && response.ok()))
                &&& final(self).bitmap_open == (old(self).bitmap_open || (old(self).stage
                    == DisplayStage::CreateBitmap && response.ok()))
            },
            // Acquiring the screen device context.
            old(self).stage == DisplayStage::AcquireScreenDc ==> (response matches Response::Handle {
                ok } ==> (if ok {
                final(self).stage == DisplayStage::CreateMemoryDc && final(self).outcome is None
            } else {
                final(self).failed_with(WSError::GetDCIsNull)
            })),
            // Creating the off-screen device context.
            old(self).stage == DisplayStage::CreateMemoryDc ==> (response matches Response::Handle {
                ok } ==> (if ok {
                final(self).stage == DisplayStage::QueryVirtualScreen && final(self).outcome is None
            } else {
                final(self).failed_with(WSError::CreateCompatibleDCIsNull)
            })),
            // Querying the virtual screen: a non-positive extent is the
            // metrics error.
            old(self).stage == DisplayStage::QueryVirtualScreen ==> (response
                matches Response::Metrics { x, y, width, height }
                ==> (if 0 < width && 0 < height {
                    &&& final(self).stage == DisplayStage::CreateBitmap
                    &&& final(self).origin_x == x
                    &&& final(self).origin_y == y
                    &&& final(self).width == width
                    &&& final(self).height == height
                    &&& final(self).outcome is None
                } else {
                    final(self).failed_with(WSError::GetSystemMetricsIsZero)
                })),
            // Creating the bitmap.
            old(self).stage == DisplayStage::CreateBitmap ==> (response matches Response::Handle {
                ok } ==> (if ok {
                final(self).stage == DisplayStage::SelectBitmap && final(self).outcome is None
            } else {
                final(self).failed_with(WSError::CreateCompatibleBitmapIsNull)
            })),
            // Selecting the bitmap.
            old(self).stage == DisplayStage::SelectBitmap ==> (response matches Response::Handle {
                ok } ==> (if ok {
                final(self).stage == DisplayStage::Stretch && final(self).outcome is None
            } else {
                final(self).failed_with(WSError::SelectObjectError)
            })),
            // The bulk copy from the screen.
            old(self).stage == DisplayStage::Stretch ==> (response matches Response::Completed { ok }
                ==> (if ok {
                final(self).stage == DisplayStage::ReadPixels && final(self).outcome is None
            } else {
                final(self).failed_with(WSError::StretchBltIsZero)
            })),
            // Reading the pixels: a successful read of the declared padded
            // size yields the repacked, channel-swapped raster; anything else
            // is the extraction error.
            old(self).stage == DisplayStage::ReadPixels ==> (response matches Response::Pixels {
                ok, data }
                ==> (if ok && data@.len() == row_stride_24(old(self).width as int)
                    * old(self).height {
                    &&& final(self).stage == DisplayStage::Cleanup
                    &&& (final(self).outcome matches Some(Ok(buf))
                        && buf.pixels@ == swap_rb(pack_rows(data@, old(self).width as int,
                            old(self).height as int), 3)
                        && buf.width == old(self).width as u32
                        && buf.height == old(self).height as u32)
                } else {
                    final(self).failed_with(WSError::GetDIBitsError)
                })),
            // Releasing: one handle per confirmation, reverse acquisition
            // order, outcome untouched.
            old(self).stage == DisplayStage::Cleanup ==> *final(self) == old(self).spec_release(),
    {
        // In every arm, response variants other than the one the pending
        // request accepts are unreachable by the requires clause.
        match self.stage {
            DisplayStage::AcquireScreenDc => match response {
                Response::Handle { ok } => {
                    if ok {
                        self.screen_dc_open = true;
                        self.screen_dcs_acquired = self.screen_dcs_acquired + 1;
                        self.stage = DisplayStage::CreateMemoryDc;
                    } else {
                        self.fail(WSError::GetDCIsNull);
                    }
                },
                _ => {
                    proof {
                        assert(false);
                    }
                },
            },
            DisplayStage::CreateMemoryDc => match response {
                Response::Handle { ok } => {
                    if ok {
                        self.memory_dc_open = true;
                        self.dcs_created = self.dcs_created + 1;
                        self.stage = DisplayStage::QueryVirtualScreen;
                    } else {
                        self.fail(WSError::CreateCompatibleDCIsNull);
                    }
                },
                _ => {
                    proof {
                        assert(false);
                    }
                },
            },
            DisplayStage::QueryVirtualScreen => match response {
                Response::Metrics { x, y, width, height } => {
                    if 0 < width && 0 < height {
                        self.origin_x = x;
                        self.origin_y = y;
                        self.width = width;
                        self.height = height;
                        self.stage = DisplayStage::CreateBitmap;
                    } else {
                        self.fail(WSError::GetSystemMetricsIsZero);
                    }
                },
                _ => {
                    proof {
                        assert(false);
                    }
                },
            },
            DisplayStage::CreateBitmap => match response {
                Response::Handle { ok } => {
                    if ok {
                        self.bitmap_open = true;
                        self.bitmaps_created = self.bitmaps_created + 1;
                        self.stage = DisplayStage::SelectBitmap;
                    } else {
                        self.fail(WSError::CreateCompatibleBitmapIsNull);
                    }
                },
                _ => {
                    proof {
                        assert(false);
                    }
                },
            },
            DisplayStage::SelectBitmap => match response {
                Response::Handle { ok } => {
                    if ok {
                        self.stage = DisplayStage::Stretch;
                    } else {
                        self.fail(WSError::SelectObjectError);
                    }
                },
                _ => {
                    proof {
                        assert(false);
                    }
                },
            },
            DisplayStage::Stretch => match response {
                Response::Completed { ok } => {
                    if ok {
                        self.stage = DisplayStage::ReadPixels;
                    } else {
                        self.fail(WSError::StretchBltIsZero);
                    }
                },
                _ => {
                    proof {
                        assert(false);
                    }
                },
            },
            DisplayStage::ReadPixels => match response {
                Response::Pixels { ok, data } => {
                    proof {
                        lemma_expected_len_fits(self.width as int, self.height as int);
                    }
                    let stride: u64 = (3 * (self.width as u64) + 3) / 4 * 4;
                    let expected: u64 = stride * (self.height as u64);
                    if ok && data.len() as u64 == expected {
                        let pixels = extract_rgb(&data, self.width, self.height);
                        self.outcome = Some(Ok(RgbBuf {
                            pixels,
                            width: self.width as u32,
                            height: self.height as u32,
                        }));
                        self.stage = DisplayStage::Cleanup;
                    } else {
                        self.fail(WSError::GetDIBitsError);
                    }
                },
                _ => {
                    proof {
                        assert(false);
                    }
                },
            },
            DisplayStage::Cleanup => match response {
                Response::Completed { .. } => {
                    if self.bitmap_open {
                        self.bitmap_open = false;
                        self.bitmaps_deleted = self.bitmaps_deleted + 1;
                    } else if self.memory_dc_open {
                        self.memory_dc_open = false;
                        self.dcs_deleted = self.dcs_deleted + 1;
                    } else {
                        self.screen_dc_open = false;
                        self.screen_dcs_released = self.screen_dcs_released + 1;
                    }
                    if !(self.screen_dc_open || self.memory_dc_open || self.bitmap_open) {
                        self.stage = DisplayStage::Done;
                    }
                },
                _ => {
                    proof {
                        assert(false);
                    }
                },
            },
            DisplayStage::Done => {
                proof {
                    assert(false);
                }
            },
        }
    }
}

/// The padded byte count of a 24-bit read fits the arithmetic used to check
/// it.
proof fn lemma_expected_len_fits(width: int, height: int)
    requires
        0 < width <= i32::MAX,
        0 < height <= i32::MAX,
    ensures
        row_stride_24(width) * height < 0x1_0000_0000_0000_0000,
        3 * width * height < 0x1_0000_0000_0000_0000,
{
    crate::pixels::lemma_row_stride_24_bounds(width);
    assert(row_stride_24(width) * height < 0x1_0000_0000_0000_0000
        && 3 * width * height < 0x1_0000_0000_0000_0000) by (nonlinear_arith)
        requires
            0 < width <= 0x7fff_ffff,
            0 < height <= 0x7fff_ffff,
            row_stride_24(width) <= 3 * width + 3;
}

/// Handle balance: however a display capture ends, success or failure, once
/// it is done the number of screen device contexts acquired equals the number
/// released, and likewise for the off-screen device context and the bitmap.
pub proof fn lemma_display_handle_balance(s: DisplayCapture)
    requires
        s.inv(),
        s.done(),
    ensures
        s.balanced(),
{
}

/// Starts a display capture: the returned machine is at its first step.
pub fn capture_display() -> (s: DisplayCapture)
    ensures
        s.inv(),
        s.stage == DisplayStage::AcquireScreenDc,
{
    DisplayCapture {
        origin_x: 0,
        origin_y: 0,
        width: 0,
        height: 0,
        stage: DisplayStage::AcquireScreenDc,
        outcome: None,
        screen_dc_open: false,
        memory_dc_open: false,
        bitmap_open: false,
        screen_dcs_acquired: 0,
        screen_dcs_released: 0,
        dcs_created: 0,
        dcs_deleted: 0,
        bitmaps_created: 0,
        bitmaps_deleted: 0,
    }
}

} // verus!
