//! The call protocol between the verified capture pipelines and the
//! unverified OS driver.
//!
//! A pipeline never touches a raw OS handle. Instead it publishes the next
//! graphics call to perform as a [`Request`]; the driver, which owns the
//! handles, performs the call and reports the outcome as a [`Response`].
//! Handle identities stay on the driver's side: a request names a handle by
//! role (the screen device context, the memory device context, the bitmap,
//! and their crop-stage counterparts), never by value.

use vstd::prelude::*;

verus! {

/// Which bounds of a window the rectangle resolver queries.
#[derive(Clone, Copy, Debug, PartialEq, Eq, Structural)]
pub enum RectKind {
    /// The outer screen-space bounds, title bar and borders included.
    Window,
    /// The interior drawable region only.
    Client,
}

/// Flags handed to the window-print render call.
#[derive(Clone, Copy, Debug, PartialEq, Eq, Structural)]
pub enum PrintFlags {
    /// Request the full rendered content, covering surfaces a plain pixel
    /// copy would show as black.
    FullContent,
    /// Restrict painting to the client area, full rendered content.
    ClientFullContent,
}

/// Which off-screen surface a pixel read targets.
#[derive(Clone, Copy, Debug, PartialEq, Eq, Structural)]
pub enum Surface {
    /// The bitmap the render step drew into.
    Primary,
    /// The crop-sized bitmap filled by the crop re-blit.
    Crop,
}

/// One OS graphics call a pipeline asks its driver to perform.
///
/// Every create/acquire request has a matching release request, and a
/// pipeline is verified to issue releases that balance its acquisitions on
/// every path.
#[derive(Clone, Copy, Debug, PartialEq, Eq, Structural)]
pub enum Request {
    /// Acquire the screen-bound device context of `hwnd` (0 for the whole
    /// screen).
    AcquireScreenDc { hwnd: isize },
    /// Query the window or client bounds of `hwnd`.
    QueryRect { hwnd: isize, kind: RectKind },
    /// Query the virtual screen's origin and extent (the bounding box of all
    /// attached monitors; the origin may be negative).
    QueryVirtualScreen,
    /// Create an off-screen device context compatible with the screen one.
    CreateMemoryDc,
    /// Create a bitmap of the given extent, compatible with the screen
    /// device context.
    CreateBitmap { width: i32, height: i32 },
    /// Select the bitmap into the memory device context.
    SelectBitmap,
    /// Ask the window to paint itself into the memory device context.
    PrintWindow { hwnd: isize, flags: PrintFlags },
    /// Copy `width x height` pixels from the screen device context at
    /// `(src_x, src_y)` into the memory device context at the origin.
    BlitFromScreen { width: i32, height: i32, src_x: i32, src_y: i32 },
    /// Stretch-copy from the screen device context into the memory device
    /// context; source and destination extents are equal, so this is a bulk
    /// copy without scaling.
    StretchFromScreen { width: i32, height: i32, src_x: i32, src_y: i32 },
    /// Create a second off-screen device context, compatible with the memory
    /// one, for the crop re-blit.
    CreateCropDc,
    /// Create the crop-sized bitmap, compatible with the memory device
    /// context.
    CreateCropBitmap { width: i32, height: i32 },
    /// Select the crop bitmap into the crop device context.
    SelectCropBitmap,
    /// Copy the `width x height` sub-rectangle at `(src_x, src_y)` of the
    /// rendered bitmap into the crop bitmap at the origin.
    CropBlit { width: i32, height: i32, src_x: i32, src_y: i32 },
    /// Restore the selection that `SelectCropBitmap` displaced.
    RestoreCropSelection,
    /// Read the surface's pixels as a device-independent bitmap: top-down
    /// rows, the given bit depth, no compression.
    ReadPixels { surface: Surface, width: i32, height: i32, bits_per_pixel: u32 },
    /// Destroy the crop bitmap.
    ReleaseCropBitmap,
    /// Destroy the crop device context.
    ReleaseCropDc,
    /// Destroy the rendered bitmap.
    ReleaseBitmap,
    /// Destroy the memory device context.
    ReleaseMemoryDc,
    /// Release the screen device context back to the OS.
    ReleaseScreenDc,
}

/// What the driver reports back for one request.
#[derive(Debug)]
pub enum Response {
    /// Outcome of a call that yields a handle; `ok` means the handle is
    /// valid.
    Handle { ok: bool },
    /// Outcome of a bounds query.
    Bounds { ok: bool, left: i32, top: i32, right: i32, bottom: i32 },
    /// The virtual screen's origin and extent.
    Metrics { x: i32, y: i32, width: i32, height: i32 },
    /// Outcome of a render, copy, or release call.
    Completed { ok: bool },
    /// Outcome of the device-independent-bitmap read, with the bytes it
    /// produced.
    Pixels { ok: bool, data: Vec<u8> },
}

impl Response {
    /// The driver reported success (a metrics query always reports; whether
    /// its values are usable is for the pipeline to judge).
    pub open spec fn ok(self) -> bool {
        match self {
            Response::Handle { ok } => ok,
            Response::Bounds { ok, .. } => ok,
            Response::Metrics { .. } => true,
            Response::Completed { ok } => ok,
            Response::Pixels { ok, .. } => ok,
        }
    }
}

impl Request {
    /// The response variant this request expects from the driver.
    pub open spec fn accepts(self, response: Response) -> bool {
        match self {
            Request::AcquireScreenDc { .. }
            | Request::CreateMemoryDc
            | Request::CreateBitmap { .. }
            | Request::SelectBitmap
            | Request::CreateCropDc
            | Request::CreateCropBitmap { .. }
            | Request::SelectCropBitmap
            | Request::RestoreCropSelection => response matches Response::Handle { .. },
            Request::QueryRect { .. } => response matches Response::Bounds { .. },
            Request::QueryVirtualScreen => response matches Response::Metrics { .. },
            Request::PrintWindow { .. }
            | Request::BlitFromScreen { .. }
            | Request::StretchFromScreen { .. }
            | Request::CropBlit { .. }
            | Request::ReleaseCropBitmap
            | Request::ReleaseCropDc
            | Request::ReleaseBitmap
            | Request::ReleaseMemoryDc
            | Request::ReleaseScreenDc => response matches Response::Completed { .. },
            Request::ReadPixels { .. } => response matches Response::Pixels { .. },
        }
    }
}

} // verus!
