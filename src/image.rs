use vstd::prelude::*;

verus! {

/// A rectangle in pixels.
pub struct Rect {
    pub x: i32,
    pub y: i32,
    pub width: i32,
    pub height: i32,
}

/// How headline images are made: the template image, where the headline
/// goes on it, and the largest font size to try.
pub struct ImageGenConfig {
    pub headline_bounds: Rect,
    pub max_font_size: i32,
    /// Path of the template image.
    pub template: String,
}

pub open spec fn fits_i32(v: int) -> bool {
    i32::MIN <= v <= i32::MAX
}

/// `value` pixels in layout units, of which there are `scale` to a pixel;
/// none when that does not fit an `i32`.
pub fn to_layout_units(value: i32, scale: i32) -> (r: Option<i32>)
    ensures
        r is Some <==> fits_i32(value * scale),
        r is Some ==> r.unwrap() == value * scale,
{
    assert(i32::MIN * i32::MAX <= value * scale <= i32::MIN * i32::MIN) by (nonlinear_arith)
        requires
            i32::MIN <= value <= i32::MAX,
            i32::MIN <= scale <= i32::MAX,
    ;
    let product: i64 = value as i64 * scale as i64;
    if product < i32::MIN as i64 || product > i32::MAX as i64 {
        None
    } else {
        Some(product as i32)
    }
}

/// The width and the height, in layout units, that the headline is laid out in.
pub fn headline_extent(config: &ImageGenConfig, scale: i32) -> (r: Option<(i32, i32)>)
    ensures
        r is Some <==> fits_i32(config.headline_bounds.width * scale)
            && fits_i32(config.headline_bounds.height * scale),
        r is Some ==> r.unwrap().0 == config.headline_bounds.width * scale
            && r.unwrap().1 == config.headline_bounds.height * scale,
{
    match to_layout_units(config.headline_bounds.width, scale) {
        Some(width) => match to_layout_units(config.headline_bounds.height, scale) {
            Some(height) => Some((width, height)),
            None => None,
        },
        None => None,
    }
}

/// The font size, in layout units, that the headline is first tried at.
pub fn initial_font_size(config: &ImageGenConfig, scale: i32) -> (r: Option<i32>)
    ensures
        r is Some <==> fits_i32(config.max_font_size * scale),
        r is Some ==> r.unwrap() == config.max_font_size * scale,
{
    to_layout_units(config.max_font_size, scale)
}

/// The next font size to try after the headline, laid out at `size`, came
/// out `measured_height` pixels tall: one pixel's worth smaller while it is
/// taller than the bounds allow, and none once it fits or the size cannot
/// shrink further.
pub fn next_font_size(size: i32, scale: i32, measured_height: i32, bounds_height: i32) -> (r: Option<i32>)
    requires
        scale > 0,
    ensures
        r is Some <==> measured_height > bounds_height && size > scale,
        r is Some ==> r.unwrap() == size - scale && 0 < r.unwrap() < size,
{
    if measured_height > bounds_height && size > scale {
        Some(size - scale)
    } else {
        None
    }
}

} // verus!
