//! Verified core of a window and display capture pipeline for a desktop
//! graphics-device interface.
//!
//! Every OS graphics call (acquiring device contexts, creating bitmaps,
//! rendering, reading pixels) is unsafe foreign code, so the pipelines are
//! modeled as explicit state machines: each machine hands out the next OS
//! call to perform as a [`protocol::Request`], consumes the call's result as
//! a [`protocol::Response`], and is verified to sequence the calls correctly,
//! to release every handle it acquired exactly once on every path, and to
//! post-process the extracted pixels into the documented channel order.
//! An unverified driver owns the raw handles and performs the calls.

pub mod capture;
pub mod display;
pub mod pixels;
pub mod protocol;
pub mod rect;
pub mod utils;
