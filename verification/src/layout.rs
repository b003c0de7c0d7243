//! Placement of the watermark and of the centred title on the background.

use vstd::prelude::*;

verus! {

/// Horizontal offset of the watermark from the left edge, in pixels.
pub const WATERMARK_X: i32 = 10;

/// Vertical offset of the watermark from the top edge, in pixels.
pub const WATERMARK_Y: i32 = 5;

/// Uniform pixel scale at which the watermark is drawn.
pub const WATERMARK_SCALE: u32 = 50;

/// Uniform pixel scale at which the title is measured and drawn.
pub const TITLE_SCALE: u32 = 80;

/// The glyph index under which a font files every character that it lacks.
pub const MISSING_GLYPH: u16 = 0;

/// Half of `n`, rounded toward zero.
pub open spec fn half_toward_zero(n: int) -> int {
    if n >= 0 {
        n / 2
    } else {
        -((-n) / 2)
    }
}

/// Horizontal origin that centres a text of width `text_width` on an image
/// of width `image_width`.
pub open spec fn spec_centered_x(image_width: int, text_width: int) -> int {
    half_toward_zero(image_width - text_width)
}

/// Vertical origin of the title: it depends on the image height and the
/// title scale only.
pub open spec fn spec_title_y(image_height: int) -> int {
    (image_height - TITLE_SCALE as int) / 2
}

/// Whether the character that a font maps to glyph index `glyph` counts
/// toward the measured width: a character that the font lacks adds nothing.
pub fn contributes_width(glyph: u16) -> (counted: bool)
    ensures
        counted == (glyph != MISSING_GLYPH),
{
    glyph != MISSING_GLYPH
}

/// Computes the horizontal origin of a text of measured width `text_width`
/// on an image `image_width` pixels wide. The result is negative for a text
/// that is at least two pixels wider than the image; it is not clamped.
pub fn centered_x(image_width: u32, text_width: i32) -> (x: i32)
    requires
        image_width <= i32::MAX,
    ensures
        x as int == spec_centered_x(image_width as int, text_width as int),
{
    let diff: i64 = image_width as i64 - text_width as i64;
    if diff >= 0 {
        (diff / 2) as i32
    } else {
        let magnitude: i64 = (-diff) / 2;
        (-magnitude) as i32
    }
}

/// Computes the vertical origin of the title on an image `image_height`
/// pixels high.
pub fn title_y(image_height: u32) -> (y: i32)
    requires
        TITLE_SCALE <= image_height,
    ensures
        y as int == spec_title_y(image_height as int),
{
    ((image_height - TITLE_SCALE) / 2) as i32
}

/// A text narrower than the image starts at half the free width, rounded
/// down: the origin is not negative, and the margins left and right of the
/// text differ by one pixel at most.
pub proof fn lemma_narrower_text_is_centered(image_width: int, text_width: int)
    requires
        text_width < image_width,
    ensures
        spec_centered_x(image_width, text_width) == (image_width - text_width) / 2,
        spec_centered_x(image_width, text_width) >= 0,
        0 <= (image_width - text_width - spec_centered_x(image_width, text_width))
            - spec_centered_x(image_width, text_width) <= 1,
{
}

/// A text wider than the image by two pixels or more starts left of the
/// image: the origin is negative, half the excess rounded toward zero.
pub proof fn lemma_wider_text_starts_left(image_width: int, text_width: int)
    requires
        text_width > image_width + 1,
    ensures
        spec_centered_x(image_width, text_width) < 0,
        spec_centered_x(image_width, text_width) == -((text_width - image_width) / 2),
{
}

/// A text of width zero starts at the middle of the image.
pub proof fn lemma_empty_text_starts_at_middle(image_width: int)
    requires
        0 <= image_width,
    ensures
        spec_centered_x(image_width, 0) == image_width / 2,
{
}

} // verus!
