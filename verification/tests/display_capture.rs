//! Display capture pipeline tests, driven by a fake OS layer.

use win_screenshot::capture::WSError;
use win_screenshot::display::{capture_display, DisplayCapture};
use win_screenshot::protocol::{Request, Response, Surface};

/// A fake OS for display captures: a virtual screen extent and a raw padded
/// 24-bit raster to hand to the pixel read.
struct FakeOs {
    metrics: (i32, i32, i32, i32),
    /// Raw padded rows, `row_stride(width) * height` bytes.
    raw: Vec<u8>,
    fail_at: Option<usize>,
    calls: usize,
    log: Vec<Request>,
    screen_acquired: usize,
    screen_released: usize,
    dcs_acquired: usize,
    dcs_released: usize,
    bitmaps_acquired: usize,
    bitmaps_released: usize,
}

fn row_stride(width: i32) -> usize {
    (((3 * width + 3) / 4) * 4) as usize
}

impl FakeOs {
    fn new(metrics: (i32, i32, i32, i32), raw: Vec<u8>) -> FakeOs {
        FakeOs {
            metrics,
            raw,
            fail_at: None,
            calls: 0,
            log: Vec::new(),
            screen_acquired: 0,
            screen_released: 0,
            dcs_acquired: 0,
            dcs_released: 0,
            bitmaps_acquired: 0,
            bitmaps_released: 0,
        }
    }

    fn respond(&mut self, req: Request) -> Response {
        let fail = self.fail_at == Some(self.calls);
        self.calls += 1;
        self.log.push(req);
        match req {
            Request::AcquireScreenDc { .. } => {
                if fail {
                    Response::Handle { ok: false }
                } else {
                    self.screen_acquired += 1;
                    Response::Handle { ok: true }
                }
            }
            Request::CreateMemoryDc => {
                if fail {
                    Response::Handle { ok: false }
                } else {
                    self.dcs_acquired += 1;
                    Response::Handle { ok: true }
                }
            }
            Request::QueryVirtualScreen => {
                let (x, y, w, h) = self.metrics;
                Response::Metrics { x, y, width: w, height: h }
            }
            Request::CreateBitmap { .. } => {
                if fail {
                    Response::Handle { ok: false }
                } else {
                    self.bitmaps_acquired += 1;
                    Response::Handle { ok: true }
                }
            }
            Request::SelectBitmap => Response::Handle { ok: !fail },
            Request::StretchFromScreen { .. } => Response::Completed { ok: !fail },
            Request::ReadPixels { .. } => {
                if fail {
                    Response::Pixels { ok: false, data: Vec::new() }
                } else {
                    Response::Pixels { ok: true, data: self.raw.clone() }
                }
            }
            Request::ReleaseScreenDc => {
                self.screen_released += 1;
                Response::Completed { ok: true }
            }
            Request::ReleaseMemoryDc => {
                self.dcs_released += 1;
                Response::Completed { ok: true }
            }
            Request::ReleaseBitmap => {
                self.bitmaps_released += 1;
                Response::Completed { ok: true }
            }
            _ => panic!("window-only request in a display capture"),
        }
    }
}

fn run(mut s: DisplayCapture, os: &mut FakeOs) -> DisplayCapture {
    loop {
        match s.pending() {
            None => return s,
            Some(req) => {
                let resp = os.respond(req);
                s.advance(resp);
            }
        }
    }
}

#[test]
fn virtual_extent_1920x1080() {
    // A single 1920 x 1080 monitor: the capture reports exactly that extent,
    // three bytes per pixel.
    let (w, h) = (1920, 1080);
    let raw = vec![7u8; row_stride(w) * h as usize];
    let mut os = FakeOs::new((0, 0, w, h), raw);
    let s = run(capture_display(), &mut os);
    let buf = s.outcome.unwrap().unwrap();
    assert_eq!(buf.width, 1920);
    assert_eq!(buf.height, 1080);
    assert_eq!(buf.pixels.len(), 3 * 1920 * 1080);
}

#[test]
fn padded_rows_are_packed_and_swapped() {
    // Width 2: each raw row is 6 pixel bytes and 2 padding bytes. The
    // padding is dropped and each pixel's first and third byte exchanged.
    let raw = vec![
        1u8, 2, 3, 4, 5, 6, 250, 251, // row 0: two pixels, two pad bytes
        7, 8, 9, 10, 11, 12, 252, 253, // row 1
    ];
    let mut os = FakeOs::new((0, 0, 2, 2), raw);
    let s = run(capture_display(), &mut os);
    let buf = s.outcome.unwrap().unwrap();
    assert_eq!(buf.pixels, vec![3u8, 2, 1, 6, 5, 4, 9, 8, 7, 12, 11, 10]);
}

#[test]
fn negative_origin_is_passed_to_the_copy() {
    // Multi-monitor arrangements can have a negative virtual-screen origin;
    // the bulk copy sources from it, with equal source and destination
    // extents.
    let (w, h) = (4, 2);
    let raw = vec![0u8; row_stride(w) * h as usize];
    let mut os = FakeOs::new((-100, -50, w, h), raw);
    let s = run(capture_display(), &mut os);
    assert!(matches!(s.outcome, Some(Ok(_))));
    assert!(os.log.iter().any(|r| matches!(
        r,
        Request::StretchFromScreen { width: 4, height: 2, src_x: -100, src_y: -50 }
    )));
    assert!(os.log.iter().any(|r| matches!(
        r,
        Request::ReadPixels { surface: Surface::Primary, bits_per_pixel: 24, .. }
    )));
}

#[test]
fn zero_extent_is_metrics_error() {
    let mut os = FakeOs::new((0, 0, 0, 1080), Vec::new());
    let s = run(capture_display(), &mut os);
    match s.outcome {
        Some(Err(e)) => assert_eq!(e, WSError::GetSystemMetricsIsZero),
        _ => panic!("expected the metrics error"),
    }
    // The two handles acquired before the query were released again.
    assert_eq!(os.screen_acquired, 1);
    assert_eq!(os.screen_released, 1);
    assert_eq!(os.dcs_acquired, 1);
    assert_eq!(os.dcs_released, 1);
}

#[test]
fn error_variant_of_every_failing_step() {
    let expected = [
        (0, WSError::GetDCIsNull),
        (1, WSError::CreateCompatibleDCIsNull),
        // call 2 is the metrics query, which cannot fail as a call
        (3, WSError::CreateCompatibleBitmapIsNull),
        (4, WSError::SelectObjectError),
        (5, WSError::StretchBltIsZero),
        (6, WSError::GetDIBitsError),
    ];
    for (i, want) in expected {
        let (w, h) = (4, 2);
        let raw = vec![0u8; row_stride(w) * h as usize];
        let mut os = FakeOs::new((0, 0, w, h), raw);
        os.fail_at = Some(i);
        let s = run(capture_display(), &mut os);
        match s.outcome {
            Some(Err(e)) => assert_eq!(e, want, "failing call {}", i),
            _ => panic!("expected an error when call {} fails", i),
        }
    }
}

#[test]
fn display_handle_balance_on_every_path() {
    for fail_at in 0..10usize {
        let (w, h) = (4, 2);
        let raw = vec![0u8; row_stride(w) * h as usize];
        let mut os = FakeOs::new((0, 0, w, h), raw);
        os.fail_at = Some(fail_at);
        let s = run(capture_display(), &mut os);
        assert!(s.outcome.is_some());
        assert_eq!(os.screen_acquired, os.screen_released, "fail_at {}", fail_at);
        assert_eq!(os.dcs_acquired, os.dcs_released, "fail_at {}", fail_at);
        assert_eq!(os.bitmaps_acquired, os.bitmaps_released, "fail_at {}", fail_at);
        assert_eq!(s.screen_dcs_acquired, s.screen_dcs_released);
        assert_eq!(s.dcs_created, s.dcs_deleted);
        assert_eq!(s.bitmaps_created, s.bitmaps_deleted);
    }
}
