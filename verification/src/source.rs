//! The raster source: where the pixel buffer comes from — a fetched image
//! drawn onto the surface, or a text label rasterized onto it — and the
//! error taxonomy of that step, the only fallible step of an instance.
//!
//! The drawing itself is surface work done by the host; the text layout
//! rules (right-aligned, vertically centred with a fixed offset) live here.

use vstd::prelude::*;

verus! {

/// The three terminal failure categories of the raster step.
#[derive(Clone, Copy, PartialEq, Eq, Structural, Debug)]
pub enum SourceErrorKind {
    /// Network or transport failure while fetching the image.
    Fetch,
    /// Malformed or unsupported image content.
    Decode,
    /// The drawing surface could not be read back.
    SurfaceRead,
}

/// A terminal raster-source failure: its category and the host's message.
pub struct SourceError {
    pub kind: SourceErrorKind,
    pub message: String,
}

/// What to rasterize onto the surface to obtain the pixel buffer.
pub enum RasterSource {
    /// Fetch and decode the image at `path`, drawn at the origin.
    Image { path: String },
    /// Render `label` in a fixed bold font, right-aligned, vertically
    /// centred with a fixed offset.
    Text { label: String },
}

/// Horizontal origin, in milli-pixels, that puts a label's right edge flush
/// with the surface's right edge. Negative when the label is wider than the
/// surface.
pub fn text_origin_mil(surface_width_mil: u64, text_width_mil: u64) -> (x: i64)
    requires
        surface_width_mil <= 0x2000_0000_0000,
        text_width_mil <= 0x2000_0000_0000,
    ensures
        x == surface_width_mil - text_width_mil,
        x + text_width_mil == surface_width_mil,
{
    (surface_width_mil as i64) - (text_width_mil as i64)
}

/// Vertical position, in milli-pixels, of the label's baseline: the surface
/// centre pushed down by the fixed 15-pixel offset.
pub fn text_baseline_mil(surface_height_mil: u64) -> (y: u64)
    requires
        surface_height_mil <= 0x2000_0000_0000,
    ensures
        y == surface_height_mil / 2 + 15_000,
{
    surface_height_mil / 2 + 15_000
}

} // verus!
