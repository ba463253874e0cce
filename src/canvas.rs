//! Size of the rendered canvas.
use crate::failure::Failure;
use vstd::prelude::*;

verus! {

/// Margin added below the laid-out content so that sub-pixel rounding of the
/// layout does not clip the bottom of the page.
pub const BOTTOM_MARGIN: i32 = 20;

/// Smallest canvas height ever produced.
pub const MIN_HEIGHT: i32 = 10;

/// Canvas height for a root element whose rounded layout height is `content_h`.
pub open spec fn canvas_height_spec(content_h: int) -> int {
    if content_h + BOTTOM_MARGIN >= MIN_HEIGHT {
        content_h + BOTTOM_MARGIN
    } else {
        MIN_HEIGHT as int
    }
}

/// The canvas height: the rounded content height plus the bottom margin,
/// never less than the minimum height.
pub fn canvas_height(content_h: i32) -> (r: u32)
    ensures
        r as int == canvas_height_spec(content_h as int),
        r >= MIN_HEIGHT,
{
    if content_h >= MIN_HEIGHT - BOTTOM_MARGIN {
        (content_h as i64 + BOTTOM_MARGIN as i64) as u32
    } else {
        MIN_HEIGHT as u32
    }
}

} // verus!

verus! {

/// The surface the page is rendered onto, in pixels.
pub struct RenderSize {
    pub width: u32,
    pub height: u32,
}

/// The render surface: the requested viewport width, and the canvas height
/// derived from the rounded root layout height.
pub fn render_size(viewport_width: u32, content_h: i32) -> (r: RenderSize)
    ensures
        r.width == viewport_width,
        r.height as int == canvas_height_spec(content_h as int),
{
    RenderSize { width: viewport_width, height: canvas_height(content_h) }
}

/// Accepts the encoded image the renderer produced, or reports that it
/// produced nothing.
pub fn check_image(bytes: Vec<u8>) -> (r: Result<Vec<u8>, Failure>)
    ensures
        bytes@.len() == 0 ==> r == Err::<Vec<u8>, Failure>(Failure::EmptyImage),
        bytes@.len() > 0 ==> r == Ok::<Vec<u8>, Failure>(bytes),
{
    if bytes.len() == 0 {
        Err(Failure::EmptyImage)
    } else {
        Ok(bytes)
    }
}

} // verus!
