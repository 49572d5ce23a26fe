//! Sample capture, start-signal detection and frame coordination for an
//! image-over-audio link: an image travels as one audio sample per pixel and
//! is painted back onto a raster once the alignment tone has been heard.
use vstd::prelude::*;

pub mod coordinator;
pub mod detector;
pub mod encoder;
pub mod raster;
pub mod ring;
pub mod upload;

verus! {

/// Width of the decoded raster, in pixels.
pub const WIDTH: usize = 500;

/// Height of the decoded raster, in pixels.
pub const HEIGHT: usize = 500;

/// Samples held by the capture ring and the storage buffer: one full image.
pub const RB_SIZE: usize = WIDTH * HEIGHT;

} // verus!
