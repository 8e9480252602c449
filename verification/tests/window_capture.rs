//! Window capture pipeline tests, driven by a fake OS layer that implements
//! the graphics calls over in-memory buffers and tallies handle traffic.

use win_screenshot::capture::{capture_window, capture_window_ex, Area, Using, WSError, WindowCapture};
use win_screenshot::protocol::{PrintFlags, RectKind, Request, Response, Surface};

/// A fake OS: a window surface of raw (unswapped) 32-bit pixels, a failure
/// injection point, and acquire/release tallies per handle category.
struct FakeOs {
    bounds: (i32, i32, i32, i32),
    bounds_ok: bool,
    /// Raw window raster, 4 bytes per pixel, extent of `bounds`.
    surface: Vec<u8>,
    /// Fail the n-th OS call (releases excepted).
    fail_at: Option<usize>,
    /// Hand back a wrong-sized pixel buffer.
    bad_pixels: bool,
    calls: usize,
    log: Vec<Request>,
    screen_acquired: usize,
    screen_released: usize,
    dcs_acquired: usize,
    dcs_released: usize,
    bitmaps_acquired: usize,
    bitmaps_released: usize,
    primary: Vec<u8>,
    primary_w: i32,
    crop_bmp: Vec<u8>,
}

/// The packed sub-rectangle of a packed 4-byte-per-pixel raster.
fn sub4(src: &[u8], src_w: i32, x: i32, y: i32, w: i32, h: i32) -> Vec<u8> {
    let mut out = Vec::new();
    for row in 0..h {
        for b in 0..(4 * w) {
            out.push(src[((y + row) * 4 * src_w + 4 * x + b) as usize]);
        }
    }
    out
}

impl FakeOs {
    fn new(bounds: (i32, i32, i32, i32), surface: Vec<u8>) -> FakeOs {
        FakeOs {
            bounds,
            bounds_ok: true,
            surface,
            fail_at: None,
            bad_pixels: false,
            calls: 0,
            log: Vec::new(),
            screen_acquired: 0,
            screen_released: 0,
            dcs_acquired: 0,
            dcs_released: 0,
            bitmaps_acquired: 0,
            bitmaps_released: 0,
            primary: Vec::new(),
            primary_w: 0,
            crop_bmp: Vec::new(),
        }
    }

    fn respond(&mut self, req: Request) -> Response {
        let fail = self.fail_at == Some(self.calls);
        self.calls += 1;
        self.log.push(req);
        match req {
            Request::AcquireScreenDc { .. } => {
                if fail {
                    Response::Handle { ok: false }
                } else {
                    self.screen_acquired += 1;
                    Response::Handle { ok: true }
                }
            }
            Request::QueryRect { .. } => {
                if fail || !self.bounds_ok {
                    Response::Bounds { ok: false, left: 0, top: 0, right: 0, bottom: 0 }
                } else {
                    let (l, t, r, b) = self.bounds;
                    Response::Bounds { ok: true, left: l, top: t, right: r, bottom: b }
                }
            }
            Request::CreateMemoryDc | Request::CreateCropDc => {
                if fail {
                    Response::Handle { ok: false }
                } else {
                    self.dcs_acquired += 1;
                    Response::Handle { ok: true }
                }
            }
            Request::CreateBitmap { width, height } => {
                if fail {
                    Response::Handle { ok: false }
                } else {
                    self.bitmaps_acquired += 1;
                    self.primary = vec![0u8; (4 * width * height) as usize];
                    self.primary_w = width;
                    Response::Handle { ok: true }
                }
            }
            Request::CreateCropBitmap { width, height } => {
                if fail {
                    Response::Handle { ok: false }
                } else {
                    self.bitmaps_acquired += 1;
                    self.crop_bmp = vec![0u8; (4 * width * height) as usize];
                    Response::Handle { ok: true }
                }
            }
            Request::SelectBitmap | Request::SelectCropBitmap | Request::RestoreCropSelection => {
                Response::Handle { ok: !fail }
            }
            Request::PrintWindow { .. } => {
                if fail {
                    Response::Completed { ok: false }
                } else {
                    self.primary = self.surface.clone();
                    Response::Completed { ok: true }
                }
            }
            Request::BlitFromScreen { width, height, src_x, src_y } => {
                if fail {
                    Response::Completed { ok: false }
                } else {
                    let src_w = self.bounds.2 - self.bounds.0;
                    self.primary = sub4(&self.surface, src_w, src_x, src_y, width, height);
                    self.primary_w = width;
                    Response::Completed { ok: true }
                }
            }
            Request::CropBlit { width, height, src_x, src_y } => {
                if fail {
                    Response::Completed { ok: false }
                } else {
                    self.crop_bmp = sub4(&self.primary, self.primary_w, src_x, src_y, width, height);
                    Response::Completed { ok: true }
                }
            }
            Request::ReadPixels { surface, .. } => {
                if fail {
                    Response::Pixels { ok: false, data: Vec::new() }
                } else if self.bad_pixels {
                    Response::Pixels { ok: true, data: vec![0u8; 1] }
                } else {
                    let data = match surface {
                        Surface::Primary => self.primary.clone(),
                        Surface::Crop => self.crop_bmp.clone(),
                    };
                    Response::Pixels { ok: true, data }
                }
            }
            Request::ReleaseScreenDc => {
                self.screen_released += 1;
                Response::Completed { ok: true }
            }
            Request::ReleaseMemoryDc | Request::ReleaseCropDc => {
                self.dcs_released += 1;
                Response::Completed { ok: true }
            }
            Request::ReleaseBitmap | Request::ReleaseCropBitmap => {
                self.bitmaps_released += 1;
                Response::Completed { ok: true }
            }
            Request::QueryVirtualScreen | Request::StretchFromScreen { .. } => {
                panic!("display-only request in a window capture")
            }
        }
    }
}

fn run(mut s: WindowCapture, os: &mut FakeOs) -> WindowCapture {
    loop {
        match s.pending() {
            None => return s,
            Some(req) => {
                let resp = os.respond(req);
                s.advance(resp);
            }
        }
    }
}

/// A surface of distinct raw bytes for a w x h window, 4 bytes per pixel.
fn numbered_surface(w: i32, h: i32) -> Vec<u8> {
    (0..(4 * w * h)).map(|i| (i % 251) as u8).collect()
}

/// Swap the first and third byte of every 4-byte group: the raw OS channel
/// order of a processed buffer.
fn swap4(mut v: Vec<u8>) -> Vec<u8> {
    for c in v.chunks_exact_mut(4) {
        c.swap(0, 2);
    }
    v
}

#[test]
fn client_area_scenario_400x300() {
    // A static 400 x 300 client area, captured client-only without a crop:
    // the raster has exactly the client extent and 4 bytes per pixel.
    let (w, h) = (400, 300);
    let mut os = FakeOs::new((10, 20, 10 + w, 20 + h), numbered_surface(w, h));
    let s = run(
        capture_window_ex(7, Using::PrintWindow, Area::ClientOnly, None, None),
        &mut os,
    );
    let buf = s.outcome.unwrap().unwrap();
    assert_eq!(buf.width, 400);
    assert_eq!(buf.height, 300);
    assert_eq!(buf.pixels.len(), 4 * 400 * 300);
}

#[test]
fn client_area_scenario_region_copy() {
    let (w, h) = (400, 300);
    let mut os = FakeOs::new((0, 0, w, h), numbered_surface(w, h));
    let s = run(
        capture_window_ex(7, Using::BitBlt, Area::ClientOnly, None, None),
        &mut os,
    );
    let buf = s.outcome.unwrap().unwrap();
    assert_eq!(buf.width, 400);
    assert_eq!(buf.height, 300);
    assert_eq!(buf.pixels.len(), 4 * 400 * 300);
}

#[test]
fn channel_order_swapped_once() {
    // Raw pixels [10,20,30,40] come back as [30,20,10,40]: the first and
    // third channel exchanged exactly once.
    let surface = vec![10u8, 20, 30, 40, 50, 60, 70, 80];
    let mut os = FakeOs::new((0, 0, 2, 1), surface);
    let s = run(capture_window(5), &mut os);
    let buf = s.outcome.unwrap().unwrap();
    assert_eq!(buf.pixels, vec![30u8, 20, 10, 40, 70, 60, 50, 80]);
}

#[test]
fn channel_order_swap_twice_restores_raw() {
    let surface = numbered_surface(3, 2);
    let mut os = FakeOs::new((0, 0, 3, 2), surface.clone());
    let s = run(capture_window(5), &mut os);
    let buf = s.outcome.unwrap().unwrap();
    // Swapping the processed raster again reproduces the raw OS byte order.
    assert_eq!(swap4(buf.pixels), surface);
}

#[test]
fn round_trip_crop_window_print() {
    // A crop strictly inside the bounds returns exactly the corresponding
    // sub-rectangle of the full capture.
    let (w, h) = (4, 3);
    let surface = numbered_surface(w, h);
    let mut os = FakeOs::new((0, 0, w, h), surface.clone());
    let full = run(capture_window_ex(7, Using::PrintWindow, Area::ClientOnly, None, None), &mut os)
        .outcome
        .unwrap()
        .unwrap();
    let mut os2 = FakeOs::new((0, 0, w, h), surface);
    let cropped = run(
        capture_window_ex(7, Using::PrintWindow, Area::ClientOnly, Some((1, 1)), Some((2, 2))),
        &mut os2,
    )
    .outcome
    .unwrap()
    .unwrap();
    assert_eq!(cropped.width, 2);
    assert_eq!(cropped.height, 2);
    assert_eq!(cropped.pixels, sub4(&full.pixels, w, 1, 1, 2, 2));
}

#[test]
fn round_trip_crop_region_copy() {
    let (w, h) = (4, 3);
    let surface = numbered_surface(w, h);
    let mut os = FakeOs::new((0, 0, w, h), surface.clone());
    let full = run(capture_window_ex(7, Using::BitBlt, Area::ClientOnly, None, None), &mut os)
        .outcome
        .unwrap()
        .unwrap();
    let mut os2 = FakeOs::new((0, 0, w, h), surface);
    let cropped = run(
        capture_window_ex(7, Using::BitBlt, Area::ClientOnly, Some((1, 1)), Some((2, 2))),
        &mut os2,
    )
    .outcome
    .unwrap()
    .unwrap();
    assert_eq!(cropped.pixels, sub4(&full.pixels, w, 1, 1, 2, 2));
}

#[test]
fn crop_origin_only_defaults_to_remainder() {
    // crop_xy without crop_wh crops from the origin to the rectangle's edge.
    let (w, h) = (4, 3);
    let surface = numbered_surface(w, h);
    let mut os = FakeOs::new((0, 0, w, h), surface.clone());
    let full = run(capture_window_ex(7, Using::PrintWindow, Area::ClientOnly, None, None), &mut os)
        .outcome
        .unwrap()
        .unwrap();
    let mut os2 = FakeOs::new((0, 0, w, h), surface);
    let cropped = run(
        capture_window_ex(7, Using::PrintWindow, Area::ClientOnly, Some((1, 2)), None),
        &mut os2,
    )
    .outcome
    .unwrap()
    .unwrap();
    assert_eq!(cropped.width, 3);
    assert_eq!(cropped.height, 1);
    assert_eq!(cropped.pixels, sub4(&full.pixels, w, 1, 2, 3, 1));
}

#[test]
fn degenerate_window_rect_query_fails() {
    // A destroyed window: the rectangle query reports failure, the capture
    // reports the rectangle error, no panic, no buffer.
    let mut os = FakeOs::new((0, 0, 4, 3), numbered_surface(4, 3));
    os.bounds_ok = false;
    let s = run(capture_window(99), &mut os);
    match s.outcome {
        Some(Err(e)) => assert_eq!(e, WSError::GetClientRectIsZero),
        _ => panic!("expected the rectangle error"),
    }
}

#[test]
fn degenerate_window_null_dc() {
    let mut os = FakeOs::new((0, 0, 4, 3), numbered_surface(4, 3));
    os.fail_at = Some(0);
    let s = run(capture_window(99), &mut os);
    match s.outcome {
        Some(Err(e)) => assert_eq!(e, WSError::GetDCIsNull),
        _ => panic!("expected the acquisition error"),
    }
}

#[test]
fn zero_area_rectangle_fails_fast() {
    let mut os = FakeOs::new((50, 60, 50, 60), Vec::new());
    let s = run(capture_window(99), &mut os);
    match s.outcome {
        Some(Err(e)) => assert_eq!(e, WSError::GetClientRectIsZero),
        _ => panic!("expected the rectangle error"),
    }
    // Nothing allocated survives: the screen device context was released.
    assert_eq!(os.screen_acquired, 1);
    assert_eq!(os.screen_released, 1);
}

#[test]
fn crop_origin_beyond_rectangle_fails_fast() {
    // A crop origin past the rectangle leaves no extent to capture.
    let mut os = FakeOs::new((0, 0, 4, 3), numbered_surface(4, 3));
    let s = run(
        capture_window_ex(7, Using::PrintWindow, Area::ClientOnly, Some((10, 0)), None),
        &mut os,
    );
    match s.outcome {
        Some(Err(e)) => assert_eq!(e, WSError::GetClientRectIsZero),
        _ => panic!("expected the rectangle error"),
    }
}

#[test]
fn wrong_sized_pixel_read_is_extraction_error() {
    let mut os = FakeOs::new((0, 0, 4, 3), numbered_surface(4, 3));
    os.bad_pixels = true;
    let s = run(capture_window(7), &mut os);
    match s.outcome {
        Some(Err(e)) => assert_eq!(e, WSError::GetDIBitsError),
        _ => panic!("expected the extraction error"),
    }
}

#[test]
fn error_variant_of_every_failing_step_window_print_crop() {
    // The window-print strategy with a crop touches every pipeline step;
    // failing the n-th OS call yields that step's documented error.
    let expected = [
        WSError::GetDCIsNull,                 // acquire screen device context
        WSError::GetClientRectIsZero,         // rectangle query
        WSError::CreateCompatibleDCIsNull,    // memory device context
        WSError::CreateCompatibleBitmapIsNull, // render bitmap
        WSError::SelectObjectError,           // select bitmap
        WSError::PrintWindowIsZero,           // render
        WSError::CreateCompatibleDCIsNull,    // crop device context
        WSError::CreateCompatibleBitmapIsNull, // crop bitmap
        WSError::SelectObjectError,           // select crop bitmap
        WSError::BitBltError,                 // crop re-blit
        WSError::SelectObjectError,           // restore selection
        WSError::GetDIBitsError,              // pixel read
    ];
    for (i, want) in expected.iter().enumerate() {
        let mut os = FakeOs::new((0, 0, 4, 3), numbered_surface(4, 3));
        os.fail_at = Some(i);
        let s = run(
            capture_window_ex(7, Using::PrintWindow, Area::ClientOnly, Some((1, 1)), Some((2, 2))),
            &mut os,
        );
        match s.outcome {
            Some(Err(e)) => assert_eq!(e, *want, "failing call {}", i),
            _ => panic!("expected an error when call {} fails", i),
        }
    }
}

#[test]
fn error_variant_of_failing_region_copy() {
    let mut os = FakeOs::new((0, 0, 4, 3), numbered_surface(4, 3));
    os.fail_at = Some(5); // the render blit
    let s = run(capture_window_ex(7, Using::BitBlt, Area::ClientOnly, None, None), &mut os);
    match s.outcome {
        Some(Err(e)) => assert_eq!(e, WSError::BitBltError),
        _ => panic!("expected the region-copy error"),
    }
}

#[test]
fn handle_balance_on_every_path() {
    // Whatever call fails (or none), every handle category balances:
    // acquisitions equal releases, on the fake OS's own tallies and on the
    // machine's.
    for using in [Using::PrintWindow, Using::BitBlt] {
        for fail_at in 0..14usize {
            let mut os = FakeOs::new((0, 0, 4, 3), numbered_surface(4, 3));
            os.fail_at = Some(fail_at);
            let s = run(
                capture_window_ex(7, using, Area::ClientOnly, Some((1, 1)), Some((2, 2))),
                &mut os,
            );
            assert!(s.outcome.is_some());
            assert_eq!(os.screen_acquired, os.screen_released, "fail_at {}", fail_at);
            assert_eq!(os.dcs_acquired, os.dcs_released, "fail_at {}", fail_at);
            assert_eq!(os.bitmaps_acquired, os.bitmaps_released, "fail_at {}", fail_at);
            assert_eq!(s.screen_dcs_acquired, s.screen_dcs_released);
            assert_eq!(s.dcs_created, s.dcs_deleted);
            assert_eq!(s.bitmaps_created, s.bitmaps_deleted);
        }
        // And on the fully successful path.
        let mut os = FakeOs::new((0, 0, 4, 3), numbered_surface(4, 3));
        let s = run(
            capture_window_ex(7, using, Area::ClientOnly, Some((1, 1)), Some((2, 2))),
            &mut os,
        );
        assert!(matches!(s.outcome, Some(Ok(_))));
        assert_eq!(os.screen_acquired, os.screen_released);
        assert_eq!(os.dcs_acquired, os.dcs_released);
        assert_eq!(os.bitmaps_acquired, os.bitmaps_released);
    }
}

#[test]
fn decision_table_rect_kind_and_flags() {
    // window-print over the full area queries the window rectangle and asks
    // for full content; every other combination works over the client
    // rectangle.
    let mut os = FakeOs::new((0, 0, 4, 3), numbered_surface(4, 3));
    run(capture_window_ex(7, Using::PrintWindow, Area::Full, None, None), &mut os);
    assert!(os.log.iter().any(|r| matches!(
        r,
        Request::QueryRect { kind: RectKind::Window, .. }
    )));
    assert!(os.log.iter().any(|r| matches!(
        r,
        Request::PrintWindow { flags: PrintFlags::FullContent, .. }
    )));

    let mut os = FakeOs::new((0, 0, 4, 3), numbered_surface(4, 3));
    run(capture_window_ex(7, Using::PrintWindow, Area::ClientOnly, None, None), &mut os);
    assert!(os.log.iter().any(|r| matches!(
        r,
        Request::QueryRect { kind: RectKind::Client, .. }
    )));
    assert!(os.log.iter().any(|r| matches!(
        r,
        Request::PrintWindow { flags: PrintFlags::ClientFullContent, .. }
    )));

    for area in [Area::Full, Area::ClientOnly] {
        let mut os = FakeOs::new((0, 0, 4, 3), numbered_surface(4, 3));
        run(capture_window_ex(7, Using::BitBlt, area, None, None), &mut os);
        assert!(os.log.iter().any(|r| matches!(
            r,
            Request::QueryRect { kind: RectKind::Client, .. }
        )));
        assert!(os.log.iter().any(|r| matches!(
            r,
            Request::BlitFromScreen { width: 4, height: 3, src_x: 0, src_y: 0 }
        )));
    }
}

#[test]
fn decision_table_bitmap_sizing() {
    // A region-copy with a crop renders straight into a crop-sized bitmap;
    // a window-print with a crop renders the full rectangle and re-blits into
    // a crop-sized second bitmap.
    let mut os = FakeOs::new((0, 0, 4, 3), numbered_surface(4, 3));
    run(
        capture_window_ex(7, Using::BitBlt, Area::ClientOnly, Some((1, 1)), Some((2, 2))),
        &mut os,
    );
    assert!(os.log.iter().any(|r| matches!(r, Request::CreateBitmap { width: 2, height: 2 })));
    assert!(!os.log.iter().any(|r| matches!(r, Request::CreateCropBitmap { .. })));
    assert!(os.log.iter().any(|r| matches!(
        r,
        Request::BlitFromScreen { width: 2, height: 2, src_x: 1, src_y: 1 }
    )));

    let mut os = FakeOs::new((0, 0, 4, 3), numbered_surface(4, 3));
    run(
        capture_window_ex(7, Using::PrintWindow, Area::ClientOnly, Some((1, 1)), Some((2, 2))),
        &mut os,
    );
    assert!(os.log.iter().any(|r| matches!(r, Request::CreateBitmap { width: 4, height: 3 })));
    assert!(os.log.iter().any(|r| matches!(r, Request::CreateCropBitmap { width: 2, height: 2 })));
    assert!(os.log.iter().any(|r| matches!(
        r,
        Request::CropBlit { width: 2, height: 2, src_x: 1, src_y: 1 }
    )));
    assert!(os.log.iter().any(|r| matches!(
        r,
        Request::ReadPixels { surface: Surface::Crop, bits_per_pixel: 32, .. }
    )));
}

#[test]
fn default_capture_uses_window_print_full() {
    let mut os = FakeOs::new((0, 0, 4, 3), numbered_surface(4, 3));
    run(capture_window(7), &mut os);
    assert!(os.log.iter().any(|r| matches!(
        r,
        Request::QueryRect { kind: RectKind::Window, .. }
    )));
    assert!(os.log.iter().any(|r| matches!(
        r,
        Request::PrintWindow { flags: PrintFlags::FullContent, .. }
    )));
    assert!(os.log.iter().any(|r| matches!(
        r,
        Request::ReadPixels { surface: Surface::Primary, bits_per_pixel: 32, .. }
    )));
}
